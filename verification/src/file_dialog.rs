//! The file and directory dialogs: the directory they open in, and the
//! stand-alone demonstration of the save dialog (which offers the formats of
//! `crate::image_coding::available_formats` as its filter).

use vstd::prelude::*;
use crate::save_settings::{opt_text, path_exists};

verus! {

/// The directory a dialog opens in: the given start directory when it is
/// not empty and exists, the root otherwise.
pub open spec fn start_dir_for(start: Option<Seq<char>>, exists: bool) -> Seq<char> {
    match start {
        Some(s) => if s.len() > 0 && exists {
            s
        } else {
            "/"@
        },
        None => "/"@,
    }
}

/// The directory a save or directory dialog opens in (whether the start
/// directory exists is looked up on disk).
pub fn dialog_start_dir(start_dir: Option<String>) -> (r: String)
    ensures
        exists|e: bool| r@ == #[trigger] start_dir_for(opt_text(start_dir), e),
        !(start_dir matches Some(s) && s@.len() > 0) ==> r@ == "/"@,
{
    proof {
        reveal_strlit("/");
    }
    match start_dir {
        Some(s) => {
            if !s.as_str().is_empty() && path_exists(s.as_str()) {
                assert(s@ == start_dir_for(Some(s@), true));
                s
            } else {
                let r = String::from_str("/");
                assert(r@ == start_dir_for(Some(s@), false));
                r
            }
        },
        None => {
            let r = String::from_str("/");
            assert(r@ == start_dir_for(None, false));
            r
        },
    }
}

/// The demonstration window; it holds no state.
pub struct Demo {}

impl Default for Demo {
    fn default() -> (r: Demo)
        ensures
            r == (Demo {}),
    {
        Demo {}
    }
}

} // verus!
