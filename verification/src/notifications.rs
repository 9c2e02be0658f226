//! What the user is told of a theme's troubles.
use crate::text::{join2, join3, strip_nul, truncate_within};
use crate::theme_api::{NoticeSeverity, ThemeBackend, ThemeNotice};
#[allow(unused_imports)]
use crate::theme_api::{notice_views, ThemeNoticeView};
use vstd::prelude::*;

pub mod laws;

verus! {

/// How much a notification matters.
#[derive(Clone, Copy, Debug, PartialEq, Eq, Structural)]
pub enum UserNotificationSeverity {
    Info,
    Warning,
    Error,
}

/// A notification for the user.
#[derive(Debug, PartialEq, Eq)]
pub struct UserNotification {
    pub source: String,
    pub code: String,
    pub severity: UserNotificationSeverity,
    pub title: String,
    pub message: String,
    pub details: String,
}

#[verifier::ext_equal]
pub ghost struct UserNotificationView {
    pub source: Seq<char>,
    pub code: Seq<char>,
    pub severity: UserNotificationSeverity,
    pub title: Seq<char>,
    pub message: Seq<char>,
    pub details: Seq<char>,
}

impl View for UserNotification {
    type V = UserNotificationView;

    open spec fn view(&self) -> UserNotificationView {
        UserNotificationView {
            source: self.source@,
            code: self.code@,
            severity: self.severity,
            title: self.title@,
            message: self.message@,
            details: self.details@,
        }
    }
}

/// A text without NUL, cut off after the last character that fits a limit in bytes.
pub open spec fn bounded_text(text: Seq<char>, limit: nat) -> Seq<char> {
    crate::text::prefix_within(crate::text::without_nul(text), limit)
}

/// A text without NUL, cut off after the last character that fits a limit in bytes.
pub fn bounded(value: &str, limit: usize) -> (r: String)
    ensures
        r@ == bounded_text(value@, limit as nat),
        crate::text::byte_len(r@) <= limit,
{
    truncate_within(strip_nul(value).as_str(), limit)
}

/// The notification that a theme's notice becomes: its texts bounded, and the
/// theme named in the details.
pub open spec fn reported(theme: Seq<char>, notice: ThemeNoticeView) -> UserNotificationView {
    UserNotificationView {
        source: "renderer"@,
        code: bounded_text(notice.code, 128),
        severity: match notice.severity {
            NoticeSeverity::Info => UserNotificationSeverity::Info,
            NoticeSeverity::Warning => UserNotificationSeverity::Warning,
            NoticeSeverity::Error => UserNotificationSeverity::Error,
        },
        title: "小狼毫RS：主题通知"@,
        message: bounded_text(notice.message, 2048),
        details: bounded_text("theme="@ + theme + ": "@ + notice.details, 16384),
    }
}

/// The notification that a theme's notice becomes.
pub fn report(theme: &str, notice: &ThemeNotice) -> (r: UserNotification)
    ensures
        r@ == reported(theme@, notice@),
{
    let head: String = join3("theme=", theme, ": ");
    UserNotification {
        source: "renderer".to_owned(),
        code: bounded(notice.code.as_str(), 128),
        severity: match notice.severity {
            NoticeSeverity::Info => UserNotificationSeverity::Info,
            NoticeSeverity::Warning => UserNotificationSeverity::Warning,
            NoticeSeverity::Error => UserNotificationSeverity::Error,
        },
        title: "小狼毫RS：主题通知".to_owned(),
        message: bounded(notice.message.as_str(), 2048),
        details: bounded(join2(head.as_str(), notice.details.as_str()).as_str(), 16384),
    }
}

/// What the log says of a notification.
pub fn log_line(notification: &UserNotification) -> (r: String)
    ensures
        r@ == "theme notice: "@ + notification@.message + " details="@ + notification@.details,
{
    let head: String = join3("theme notice: ", notification.message.as_str(), " details=");
    join2(head.as_str(), notification.details.as_str())
}

/// What the user is told of a theme that could not be loaded.
pub open spec fn unavailable_theme(theme: Seq<char>, error: Seq<char>) -> UserNotificationView {
    reported(
        theme,
        ThemeNoticeView {
            severity: NoticeSeverity::Warning,
            code: "theme.unavailable"@,
            message: "主题 "@ + theme + " 加载失败，正在尝试其他主题。"@,
            details: "theme "@ + theme + " unavailable: "@ + error,
        },
    )
}

/// Tells the user that a theme could not be loaded, and that another is tried.
pub fn theme_unavailable(theme: &str, error: &str) -> (r: UserNotification)
    ensures
        r@ == unavailable_theme(theme@, error@),
{
    let head: String = join3("theme ", theme, " unavailable: ");
    let notice = ThemeNotice {
        severity: NoticeSeverity::Warning,
        code: "theme.unavailable".to_owned(),
        message: join3("主题 ", theme, " 加载失败，正在尝试其他主题。"),
        details: join2(head.as_str(), error),
    };
    report(theme, &notice)
}

/// Tells the user that a setting of the renderer is not valid, and that its
/// default is used.
pub fn invalid_configuration(details: &str) -> (r: UserNotification)
    ensures
        r@ == reported(
            "renderer"@,
            ThemeNoticeView {
                severity: NoticeSeverity::Warning,
                code: "configuration.invalid"@,
                message: "渲染配置无效，已使用内置默认值。"@,
                details: details@,
            },
        ),
{
    let notice = ThemeNotice {
        severity: NoticeSeverity::Warning,
        code: "configuration.invalid".to_owned(),
        message: "渲染配置无效，已使用内置默认值。".to_owned(),
        details: details.to_owned(),
    };
    report("renderer", &notice)
}

/// The views of a list of notifications, in order.
pub open spec fn notification_views(s: Seq<UserNotification>) -> Seq<UserNotificationView> {
    Seq::new(s.len(), |i: int| s[i]@)
}

/// The notifications that a list of notices becomes, in order.
pub open spec fn all_reported(theme: Seq<char>, notices: Seq<ThemeNoticeView>) -> Seq<
    UserNotificationView,
> {
    Seq::new(notices.len(), |i: int| reported(theme, notices[i]))
}

/// The notifications that a list of notices becomes, in order.
pub fn report_all(theme: &str, notices: &Vec<ThemeNotice>) -> (r: Vec<UserNotification>)
    ensures
        notification_views(r@) == all_reported(theme@, notice_views(notices@)),
{
    let mut list: Vec<UserNotification> = Vec::new();
    let mut i: usize = 0;
    while i < notices.len()
        invariant
            i <= notices.len(),
            list.len() == i,
            forall|j: int| 0 <= j < i ==> (#[trigger] list[j])@ == reported(theme@, notices[j]@),
        decreases notices.len() - i,
    {
        list.push(report(theme, &notices[i]));
        i += 1;
    }
    assert(notification_views(list@) =~= all_reported(theme@, notice_views(notices@)));
    list
}

/// Takes the notices that a theme has gathered and makes them notifications, in
/// order. The theme is asked once, and nothing else is asked of it.
pub fn drain<B: ThemeBackend>(theme: &str, backend: &mut B) -> (r: Vec<UserNotification>)
    ensures
        notification_views(r@) == all_reported(theme@, old(backend).gathered()),
        final(backend).gathered() == Seq::<ThemeNoticeView>::empty(),
        old(backend).else_unchanged(final(backend)),
{
    let ghost gathered = backend.gathered();
    let notices: Vec<ThemeNotice> = backend.take_notices();
    assert(notice_views(notices@) == gathered);
    report_all(theme, &notices)
}

/// However long a theme's texts are, the notification stays within its limits.
pub proof fn law_notifications_are_bounded(theme: Seq<char>, notice: ThemeNoticeView)
    ensures
        crate::text::byte_len(reported(theme, notice).code) <= 128,
        crate::text::byte_len(reported(theme, notice).message) <= 2048,
        crate::text::byte_len(reported(theme, notice).details) <= 16384,
{
    lemma_prefix_fits(crate::text::without_nul(notice.code), 128);
    lemma_prefix_fits(crate::text::without_nul(notice.message), 2048);
    lemma_prefix_fits(
        crate::text::without_nul("theme="@ + theme + ": "@ + notice.details),
        16384,
    );
}

/// The longest prefix that fits does fit.
proof fn lemma_prefix_fits(text: Seq<char>, limit: nat)
    ensures
        crate::text::byte_len(crate::text::prefix_within(text, limit)) <= limit,
    decreases text.len(),
{
    if text.len() == 0 {
        assert(text =~= Seq::<char>::empty());
        assert(vstd::utf8::encode_utf8(text) =~= Seq::<u8>::empty());
    } else if crate::text::byte_len(text) > limit {
        lemma_prefix_fits(text.drop_last(), limit);
    }
}

} // verus!
