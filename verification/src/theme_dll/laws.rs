//! Which of the user's actions on a theme are delivered.
#[allow(unused_imports)]
use super::{delivered, delivered_of, BackendView};
#[allow(unused_imports)]
use crate::message::RendererEvent;
#[allow(unused_imports)]
use crate::state::Owner;
#[allow(unused_imports)]
use crate::theme_api::{sent, FrameView, UiAction};
use vstd::prelude::*;

verus! {

/// What was done in two parts is delivered in two parts, in order; and one action is
/// delivered exactly where it was done on the present content and the frame allows it.
pub proof fn law_actions_are_delivered_in_order(
    current: u64,
    frame: FrameView,
    a: Seq<(u64, UiAction)>,
    b: Seq<(u64, UiAction)>,
)
    ensures
        delivered(current, frame, a + b) == delivered(current, frame, a) + delivered(
            current,
            frame,
            b,
        ),
        a.len() == 1 ==> delivered(current, frame, a) == (if a[0].0 == current && sent(
            frame,
            a[0].1,
        ) is Some {
            seq![sent(frame, a[0].1)->0]
        } else {
            Seq::empty()
        }),
    decreases b.len(),
{
    if a.len() == 1 {
        assert(a.drop_last() =~= Seq::<(u64, UiAction)>::empty());
        assert(delivered(current, frame, a.drop_last()) =~= Seq::<(Owner, RendererEvent)>::empty());
        assert(a.last() == a[0]);
        if a[0].0 == current && sent(frame, a[0].1) is Some {
            assert(delivered(current, frame, a) =~= seq![sent(frame, a[0].1)->0]);
        }
    }
    if b.len() == 0 {
        assert(a + b =~= a);
        assert(delivered(current, frame, a) + delivered(current, frame, b) =~= delivered(
            current,
            frame,
            a,
        ));
    } else {
        law_actions_are_delivered_in_order(current, frame, a, b.drop_last());
        assert((a + b).drop_last() =~= a + b.drop_last());
        assert((a + b).last() == b.last());
        assert(delivered(current, frame, a + b) =~= delivered(current, frame, a) + delivered(
            current,
            frame,
            b,
        ));
    }
}

/// While nothing is shown nothing is delivered; else what is delivered is that of the
/// content that is shown.
pub proof fn law_hidden_theme_delivers_nothing(b: BackendView, events: Seq<(u64, UiAction)>)
    ensures
        b.events is None ==> delivered_of(b, events).len() == 0,
        b.events matches Some((current, frame)) ==> delivered_of(b, events) == delivered(
            current,
            frame,
            events,
        ),
{
}

} // verus!
