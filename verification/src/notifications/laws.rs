//! What a notification keeps of a notice.
#[allow(unused_imports)]
use super::{
    all_reported, bounded_text, reported, unavailable_theme, UserNotificationSeverity,
};
#[allow(unused_imports)]
use crate::text::{byte_len, has_nul, prefix_within, without_nul};
#[allow(unused_imports)]
use crate::theme_api::{NoticeSeverity, ThemeNoticeView};
use vstd::prelude::*;

verus! {

/// A text without NUL that fits is kept whole; of any other the longest beginning without
/// its NUL characters that fits.
pub proof fn law_short_texts_are_kept(text: Seq<char>, limit: nat, n: int)
    requires
        0 <= n <= without_nul(text).len(),
    ensures
        !has_nul(text) && byte_len(text) <= limit ==> bounded_text(text, limit) == text,
        byte_len(bounded_text(text, limit)) <= limit,
        bounded_text(text, limit) == without_nul(text).take(
            bounded_text(text, limit).len() as int,
        ),
        byte_len(without_nul(text).take(n)) <= limit ==> n <= bounded_text(text, limit).len(),
{
    let plain = without_nul(text);
    crate::text::laws::law_only_nul_is_dropped(text, text);
    crate::text::laws::law_prefix_is_the_longest(plain, limit, n);
    crate::text::laws::law_prefix_is_the_longest(plain, limit, plain.len() as int);
    assert(plain.take(plain.len() as int) =~= plain);
}

/// A notice of ordinary length reaches the user as it is, with its code, its message and how
/// much it matters, and with the theme's name before its details.
pub proof fn law_notice_reaches_the_user(theme: Seq<char>, notice: ThemeNoticeView)
    requires
        !has_nul(notice.code),
        !has_nul(notice.message),
        !has_nul("theme="@ + theme + ": "@ + notice.details),
        byte_len(notice.code) <= 128,
        byte_len(notice.message) <= 2048,
        byte_len("theme="@ + theme + ": "@ + notice.details) <= 16384,
    ensures
        reported(theme, notice).code == notice.code,
        reported(theme, notice).message == notice.message,
        reported(theme, notice).details == "theme="@ + theme + ": "@ + notice.details,
        reported(theme, notice).source == "renderer"@,
{
    law_short_texts_are_kept(notice.code, 128, 0);
    law_short_texts_are_kept(notice.message, 2048, 0);
    law_short_texts_are_kept("theme="@ + theme + ": "@ + notice.details, 16384, 0);
}

/// How much a notice matters is passed on as it is, so that different ones stay different.
pub proof fn law_severity_is_passed_on(
    theme: Seq<char>,
    a: ThemeNoticeView,
    b: ThemeNoticeView,
)
    ensures
        a.severity == NoticeSeverity::Info <==> reported(theme, a).severity
            == UserNotificationSeverity::Info,
        a.severity == NoticeSeverity::Warning <==> reported(theme, a).severity
            == UserNotificationSeverity::Warning,
        a.severity == NoticeSeverity::Error <==> reported(theme, a).severity
            == UserNotificationSeverity::Error,
        a.severity != b.severity ==> reported(theme, a).severity != reported(theme, b).severity,
{
}

/// Every notice becomes one notification, in order.
pub proof fn law_every_notice_is_reported(
    theme: Seq<char>,
    a: Seq<ThemeNoticeView>,
    b: Seq<ThemeNoticeView>,
    i: int,
)
    ensures
        all_reported(theme, a).len() == a.len(),
        0 <= i < a.len() ==> all_reported(theme, a)[i] == reported(theme, a[i]),
        all_reported(theme, a + b) == all_reported(theme, a) + all_reported(theme, b),
{
    assert(all_reported(theme, a + b) =~= all_reported(theme, a) + all_reported(theme, b));
}

/// A theme that cannot be loaded is a warning, and no error.
pub proof fn law_missing_theme_is_a_warning(theme: Seq<char>, error: Seq<char>)
    ensures
        unavailable_theme(theme, error).severity == UserNotificationSeverity::Warning,
        unavailable_theme(theme, error).source == "renderer"@,
{
}

} // verus!
