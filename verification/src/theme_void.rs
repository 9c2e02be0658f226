//! The theme that shows nothing. Typing and choosing by key work as with any other.
use crate::theme_api::{CandidateView, EventSink, ThemeBackend, ThemeNotice};
#[allow(unused_imports)]
use crate::theme_api::{notice_views, ThemeNoticeView};
use vstd::prelude::*;

verus! {

/// A theme without a window.
pub struct VoidBackend;

impl ThemeBackend for VoidBackend {
    open spec fn gathered(&self) -> Seq<ThemeNoticeView> {
        Seq::empty()
    }

    open spec fn else_unchanged(&self, after: &Self) -> bool {
        *after == *self
    }

    fn render(&mut self, _view: &CandidateView, _events: &EventSink) -> (r: Result<(), String>)
        ensures
            r is Ok,
    {
        Ok(())
    }

    fn conceal(&mut self) {
    }

    fn refresh_appearance(&mut self) -> (r: Result<(), String>)
        ensures
            r is Ok,
    {
        Ok(())
    }

    fn take_notices(&mut self) -> (r: Vec<ThemeNotice>)
        ensures
            r.len() == 0,
    {
        let none: Vec<ThemeNotice> = Vec::new();
        assert(notice_views(none@) =~= Seq::<ThemeNoticeView>::empty());
        none
    }

    fn check_health(&mut self) -> (r: Result<(), String>)
        ensures
            r is Ok,
    {
        Ok(())
    }
}

} // verus!
