//! The list of detected screens and which of them screenshots are taken of.

use vstd::prelude::*;
use crate::image_coding::{pixels_wf, Pixels};

verus! {

/// What the tool keeps of a detected display.
#[derive(Debug, Clone, Copy, PartialEq, Eq, Structural)]
pub struct ScreenInfo {
    pub id: u32,
    pub is_primary: bool,
    pub width: u32,
    pub height: u32,
}

/// Position of the first screen with the given identifier, or -1.
pub open spec fn position_of_id(s: Seq<ScreenInfo>, id: u32) -> int
    decreases s.len(),
{
    if s.len() == 0 {
        -1
    } else {
        let p = position_of_id(s.drop_last(), id);
        if p >= 0 {
            p
        } else if s.last().id == id {
            s.len() - 1
        } else {
            -1
        }
    }
}

/// Position of the first primary screen, or -1.
pub open spec fn position_of_primary(s: Seq<ScreenInfo>) -> int
    decreases s.len(),
{
    if s.len() == 0 {
        -1
    } else {
        let p = position_of_primary(s.drop_last());
        if p >= 0 {
            p
        } else if s.last().is_primary {
            s.len() - 1
        } else {
            -1
        }
    }
}

pub open spec fn index_after_primary_selection(s: Seq<ScreenInfo>, current: int) -> int {
    if position_of_primary(s) >= 0 {
        position_of_primary(s)
    } else {
        current
    }
}

/// The detected screens, the selected one and the width of their icons.
pub struct ScreensView {
    pub screens: Seq<ScreenInfo>,
    pub current: int,
    pub icon_width: u32,
}

/// The detected screens and the index of the one that screenshots are taken
/// of.
pub struct ScreensManager {
    screens: Vec<ScreenInfo>,
    curr_screen_index: usize,
    icon_width: u32,
}

impl View for ScreensManager {
    type V = ScreensView;

    closed spec fn view(&self) -> ScreensView {
        ScreensView {
            screens: self.screens@,
            current: self.curr_screen_index as int,
            icon_width: self.icon_width,
        }
    }
}

proof fn lemma_position_of_id_bounds(s: Seq<ScreenInfo>, id: u32)
    ensures
        -1 <= position_of_id(s, id) < s.len(),
        position_of_id(s, id) >= 0 ==> s[position_of_id(s, id)].id == id,
        position_of_id(s, id) < 0 ==> forall|j: int| 0 <= j < s.len() ==> s[j].id != id,
        position_of_id(s, id) >= 0 ==> forall|j: int| 0 <= j < position_of_id(s, id) ==> s[j].id != id,
    decreases s.len(),
{
    if s.len() > 0 {
        lemma_position_of_id_bounds(s.drop_last(), id);
        assert(forall|j: int| 0 <= j < s.len() - 1 ==> s.drop_last()[j] == s[j]);
    }
}

proof fn lemma_position_of_primary_bounds(s: Seq<ScreenInfo>)
    ensures
        -1 <= position_of_primary(s) < s.len(),
        position_of_primary(s) >= 0 ==> s[position_of_primary(s)].is_primary,
        position_of_primary(s) < 0 ==> forall|j: int| 0 <= j < s.len() ==> !s[j].is_primary,
    decreases s.len(),
{
    if s.len() > 0 {
        lemma_position_of_primary_bounds(s.drop_last());
        assert(forall|j: int| 0 <= j < s.len() - 1 ==> s.drop_last()[j] == s[j]);
    }
}

fn find_id(s: &Vec<ScreenInfo>, id: u32) -> (r: Option<usize>)
    ensures
        match r {
            Some(i) => i as int == position_of_id(s@, id),
            None => position_of_id(s@, id) == -1,
        },
{
    let mut i: usize = 0;
    while i < s.len()
        invariant
            i <= s@.len(),
            position_of_id(s@.take(i as int), id) == -1,
        decreases s@.len() - i,
    {
        proof {
            assert(s@.take(i + 1).drop_last() =~= s@.take(i as int));
        }
        if s[i].id == id {
            proof {
                lemma_position_of_id_prefix(s@, id, i + 1);
            }
            return Some(i);
        }
        i = i + 1;
    }
    assert(s@.take(s@.len() as int) =~= s@);
    None
}

proof fn lemma_position_of_id_prefix(s: Seq<ScreenInfo>, id: u32, k: int)
    requires
        0 <= k <= s.len(),
        position_of_id(s.take(k), id) >= 0,
    ensures
        position_of_id(s, id) == position_of_id(s.take(k), id),
    decreases s.len() - k,
{
    if k < s.len() {
        assert(s.take(k + 1).drop_last() =~= s.take(k));
        lemma_position_of_id_prefix(s, id, k + 1);
    } else {
        assert(s.take(k) =~= s);
    }
}

proof fn lemma_position_of_primary_prefix(s: Seq<ScreenInfo>, k: int)
    requires
        0 <= k <= s.len(),
        position_of_primary(s.take(k)) >= 0,
    ensures
        position_of_primary(s) == position_of_primary(s.take(k)),
    decreases s.len() - k,
{
    if k < s.len() {
        assert(s.take(k + 1).drop_last() =~= s.take(k));
        lemma_position_of_primary_prefix(s, k + 1);
    } else {
        assert(s.take(k) =~= s);
    }
}

fn find_primary(s: &Vec<ScreenInfo>) -> (r: Option<usize>)
    ensures
        match r {
            Some(i) => i as int == position_of_primary(s@),
            None => position_of_primary(s@) == -1,
        },
{
    let mut i: usize = 0;
    while i < s.len()
        invariant
            i <= s@.len(),
            position_of_primary(s@.take(i as int)) == -1,
        decreases s@.len() - i,
    {
        proof {
            assert(s@.take(i + 1).drop_last() =~= s@.take(i as int));
        }
        if s[i].is_primary {
            proof {
                lemma_position_of_primary_prefix(s@, i + 1);
            }
            return Some(i);
        }
        i = i + 1;
    }
    assert(s@.take(s@.len() as int) =~= s@);
    None
}

impl ScreensManager {
    /// The selected index points at a screen, or there is no screen.
    pub open spec fn selection_valid(&self) -> bool {
        self@.screens.len() == 0 || (0 <= self@.current < self@.screens.len())
    }

    /// No screen detected yet; the first screen selected; icons of the given
    /// width.
    pub fn new(icon_width: u32) -> (r: ScreensManager)
        ensures
            r@.screens.len() == 0,
            r@.current == 0,
            r@.icon_width == icon_width,
    {
        ScreensManager { screens: Vec::new(), curr_screen_index: 0, icon_width }
    }

    /// The manager of the given detected screens, with the first primary
    /// screen selected (the first screen when none is primary).
    pub fn from_detected(icon_width: u32, detected: Vec<ScreenInfo>) -> (r: ScreensManager)
        ensures
            r@.screens == detected@,
            r@.icon_width == icon_width,
            r@.current == index_after_primary_selection(detected@, 0),
            position_of_primary(detected@) >= 0 ==> r@.current == position_of_primary(detected@),
            r.selection_valid(),
    {
        let mut m = ScreensManager { screens: detected, curr_screen_index: 0, icon_width };
        m.select_primary_screen();
        m
    }

    /// The detected screens.
    pub fn get_screens(&self) -> (r: &Vec<ScreenInfo>)
        ensures
            r@ == self@.screens,
    {
        &self.screens
    }

    /// The index of the selected screen.
    pub fn get_current_screen_index(&self) -> (r: usize)
        ensures
            r == self@.current,
    {
        self.curr_screen_index
    }

    /// The selected screen, if the index points at one (there is none before
    /// the first detection).
    pub fn get_current_screen_infos(&self) -> (r: Option<ScreenInfo>)
        ensures
            0 <= self@.current < self@.screens.len() ==> r == Some(self@.screens[self@.current]),
            !(0 <= self@.current < self@.screens.len()) ==> r is None,
    {
        if self.curr_screen_index < self.screens.len() {
            Some(self.screens[self.curr_screen_index])
        } else {
            None
        }
    }

    /// Selects the screen at `index`; an index past the list is ignored.
    pub fn select_screen(&mut self, index: usize)
        ensures
            final(self)@.screens == old(self)@.screens,
            final(self)@.icon_width == old(self)@.icon_width,
            final(self)@.current == if index < old(self)@.screens.len() {
                index as int
            } else {
                old(self)@.current
            },
            old(self).selection_valid() ==> final(self).selection_valid(),
    {
        if index < self.screens.len() {
            self.curr_screen_index = index;
        }
    }

    /// Selects the first primary screen, if there is one.
    pub fn select_primary_screen(&mut self)
        ensures
            final(self)@.screens == old(self)@.screens,
            final(self)@.icon_width == old(self)@.icon_width,
            final(self)@.current == index_after_primary_selection(old(self)@.screens, old(self)@.current),
            position_of_primary(old(self)@.screens) >= 0 ==> final(self).selection_valid(),
            old(self).selection_valid() ==> final(self).selection_valid(),
    {
        proof {
            lemma_position_of_primary_bounds(self@.screens);
        }
        match find_primary(&self.screens) {
            Some(i) => {
                self.curr_screen_index = i;
            },
            None => {},
        }
    }

    /// Replaces the list with newly detected screens. If a screen was selected,
    /// the screen with the same identifier stays selected, wherever it now
    /// stands; if it is gone, the primary screen is selected (or the index is
    /// kept when there is no primary screen).
    pub fn update_available_screens(&mut self, detected: Vec<ScreenInfo>)
        requires
            old(self).selection_valid(),
        ensures
            final(self)@.screens == detected@,
            final(self)@.icon_width == old(self)@.icon_width,
            old(self)@.screens.len() == 0 ==> final(self)@.current == old(self)@.current,
            old(self)@.screens.len() > 0 ==> {
                let id = old(self)@.screens[old(self)@.current].id;
                final(self)@.current == if position_of_id(detected@, id) >= 0 {
                    position_of_id(detected@, id)
                } else {
                    index_after_primary_selection(detected@, old(self)@.current)
                }
            },
    {
        let curr_id: Option<u32> = if self.screens.len() > 0 {
            Some(self.screens[self.curr_screen_index].id)
        } else {
            None
        };
        self.screens = detected;
        match curr_id {
            Some(id) => match find_id(&self.screens, id) {
                Some(i) => {
                    self.curr_screen_index = i;
                },
                None => {
                    self.select_primary_screen();
                },
            },
            None => {},
        }
    }

    /// The icon of a screen from its screenshot: the screenshot resized to
    /// the configured width, keeping its aspect ratio (see `icon_height`).
    pub fn icon_for(&self, screenshot: &Pixels) -> (r: Pixels)
        requires
            pixels_wf(*screenshot),
            screenshot.width > 0,
            screenshot.height > 0,
            self@.icon_width * screenshot.height <= u32::MAX,
        ensures
            r.width == self@.icon_width,
            r.height == (self@.icon_width * screenshot.height) / (screenshot.width as int),
            pixels_wf(r),
    {
        let height = self.icon_height(screenshot.width, screenshot.height);
        resize_gaussian(screenshot, self.icon_width, height)
    }

    /// Height of an icon of the configured width for an image of the given
    /// size, keeping the aspect ratio (integer division).
    pub fn icon_height(&self, image_width: u32, image_height: u32) -> (r: u32)
        requires
            image_width > 0,
            self@.icon_width * image_height <= u32::MAX,
        ensures
            r == (self@.icon_width * image_height) / (image_width as int),
    {
        self.icon_width * image_height / image_width
    }
}

/// `image::imageops::resize` with the Gaussian filter: the image resampled to
/// the given size. The resampled pixels come from floating-point filtering
/// and are not stated; the size is. Empty images are left out.
#[verifier::external_body]
fn resize_gaussian(img: &Pixels, width: u32, height: u32) -> (r: Pixels)
    requires
        pixels_wf(*img),
        img.width > 0,
        img.height > 0,
    ensures
        r.width == width,
        r.height == height,
        pixels_wf(r),
{
    let buffer = image::RgbaImage::from_raw(img.width, img.height, img.data.clone()).expect("pixels fill the image");
    let resized = image::imageops::resize(&buffer, width, height, image::imageops::FilterType::Gaussian);
    Pixels { width: resized.width(), height: resized.height(), data: resized.into_raw() }
}

/// The selected screen survives a new detection: if the screen selected
/// before is detected again, it is the one selected after.
pub proof fn lemma_selection_follows_screen(before: Seq<ScreenInfo>, current: int, detected: Seq<ScreenInfo>, after: int)
    requires
        0 <= current < before.len(),
        position_of_id(detected, before[current].id) >= 0,
        after == position_of_id(detected, before[current].id),
    ensures
        0 <= after < detected.len(),
        detected[after].id == before[current].id,
{
    lemma_position_of_id_bounds(detected, before[current].id);
}

} // verus!
