//! The state of the service in a few words.

use vstd::prelude::*;
use vstd::string::*;

use crate::decode::{lowercase, to_lowercase};
use crate::gui::palette::{opaque, rgb, Rgba};
use crate::text::{
    chars_of, contains, has_text, lemma_replaced_free, replace_char, replaced, take_chars,
};

verus! {

// ---------------------------------------------------------------------------------------------
// The headline
// ---------------------------------------------------------------------------------------------

/// The state of the service in a word.
#[derive(Debug, Clone, Copy, PartialEq, Eq, Structural)]
pub enum Headline {
    /// An action is under way.
    Busy,
    /// The service runs.
    Running,
    /// Something went wrong.
    Broken,
    /// The service waits to be started.
    Idle,
}

impl Headline {
    /// The word for the state.
    pub fn label(self) -> (text: &'static str)
        ensures
            text@ == (match self {
                Headline::Busy => "处理中"@,
                Headline::Running => "已接管"@,
                Headline::Broken => "异常"@,
                Headline::Idle => "待启动"@,
            }),
    {
        match self {
            Headline::Busy => "处理中",
            Headline::Running => "已接管",
            Headline::Broken => "异常",
            Headline::Idle => "待启动",
        }
    }

    /// The colour of the state.
    pub fn accent(self) -> (color: Rgba)
        ensures
            color == (match self {
                Headline::Busy => opaque(250, 196, 92),
                Headline::Running => opaque(106, 220, 155),
                Headline::Broken => opaque(255, 120, 100),
                Headline::Idle => opaque(162, 173, 184),
            }),
    {
        match self {
            Headline::Busy => rgb(250, 196, 92),
            Headline::Running => rgb(106, 220, 155),
            Headline::Broken => rgb(255, 120, 100),
            Headline::Idle => rgb(162, 173, 184),
        }
    }

    /// The title of the card that shows the state.
    pub fn card_title(self) -> (text: &'static str)
        ensures
            text@ == (match self {
                Headline::Busy => "正在处理中"@,
                Headline::Running => "加速已生效"@,
                Headline::Broken => "当前异常"@,
                Headline::Idle => "等待启动"@,
            }),
    {
        match self {
            Headline::Running => "加速已生效",
            Headline::Busy => "正在处理中",
            Headline::Broken => "当前异常",
            Headline::Idle => "等待启动",
        }
    }
}

// ---------------------------------------------------------------------------------------------
// Errors in one line
// ---------------------------------------------------------------------------------------------

/// The first 34 characters of a text, with dots where there are more.
pub open spec fn shortened(text: Seq<char>) -> Seq<char> {
    if text.len() > 34 {
        text.take(34) + "..."@
    } else {
        text
    }
}

/// The one line for an error, given its text in one line and the same in small letters: what went
/// wrong where that can be told, and else the beginning of the text.
pub open spec fn error_summary(compact: Seq<char>, lower: Seq<char>) -> Seq<char> {
    if has_text(lower, "127.0.0.1:80"@) || has_text(lower, "failed to bind http listener"@) {
        "80 端口监听失败，请查看详情"@
    } else if has_text(lower, "127.0.0.1:443"@) || has_text(
        lower,
        "failed to bind https listener"@,
    ) {
        "443 端口监听失败，请查看详情"@
    } else if has_text(lower, "elevation"@) || has_text(lower, "permission denied"@) {
        "权限申请失败，请查看详情"@
    } else if has_text(lower, "doh"@) {
        "DoH 配置或连接失败，请查看详情"@
    } else {
        shortened(compact)
    }
}

/// The text of an error in one line.
pub open spec fn one_line(error: Seq<char>) -> Seq<char> {
    replaced(error, '\n', " "@)
}

/// The first 34 characters of a text, with dots where there are more.
fn shorten(text: &str) -> (short: String)
    ensures
        short@ == shortened(text@),
{
    let count: usize = chars_of(text).len();
    let short = take_chars(text, 34);
    if count > 34 {
        short.concat("...")
    } else {
        assert(text@.take(text@.len() as int) =~= text@);
        short
    }
}

/// The one line for an error, given its text in one line and the same in small letters.
pub fn summarize_compact_error(compact: &str, lower: &str) -> (summary: String)
    ensures
        summary@ == error_summary(compact@, lower@),
{
    if contains(lower, "127.0.0.1:80") || contains(lower, "failed to bind http listener") {
        return "80 端口监听失败，请查看详情".to_string();
    }
    if contains(lower, "127.0.0.1:443") || contains(lower, "failed to bind https listener") {
        return "443 端口监听失败，请查看详情".to_string();
    }
    if contains(lower, "elevation") || contains(lower, "permission denied") {
        return "权限申请失败，请查看详情".to_string();
    }
    if contains(lower, "doh") {
        return "DoH 配置或连接失败，请查看详情".to_string();
    }
    shorten(compact)
}

/// The one line for an error.
pub fn summarize_launcher_error(error: &str) -> (summary: String)
    ensures
        summary@ == error_summary(one_line(error@), lowercase(one_line(error@))),
{
    let compact = replace_char(error, '\n', " ");
    let lower = to_lowercase(compact.as_str());
    summarize_compact_error(compact.as_str(), lower.as_str())
}

/// What is shown for an error fits on one line: it has no line feed, and no more than 37
/// characters.
pub proof fn law_summary_fits_on_a_line(error: Seq<char>, lower: Seq<char>)
    ensures
        error_summary(one_line(error), lower).len() <= 37,
        forall|i: int|
            0 <= i < error_summary(one_line(error), lower).len() ==> #[trigger] error_summary(
                one_line(error),
                lower,
            )[i] != '\n',
{
    reveal_strlit(" ");
    reveal_strlit("...");
    reveal_strlit("80 端口监听失败，请查看详情");
    reveal_strlit("443 端口监听失败，请查看详情");
    reveal_strlit("权限申请失败，请查看详情");
    reveal_strlit("DoH 配置或连接失败，请查看详情");
    lemma_replaced_free(error, '\n', " "@, '\n');
    let compact = one_line(error);
    assert forall|i: int| 0 <= i < shortened(compact).len() implies #[trigger] shortened(
        compact,
    )[i] != '\n' by {
        if compact.len() > 34 && i >= 34 {
            assert(shortened(compact)[i] == "..."@[i - 34]);
        } else {
            assert(shortened(compact)[i] == compact[i]);
        }
    }
}

/// What is shown for an error tells what went wrong, where its text says so: the first of the two ports
/// that cannot be listened on, the second, the rights that were refused, the resolution of names, in
/// this order. Otherwise it is the text itself, or its first 34 characters and dots where it is longer.
pub proof fn law_summary_names_the_cause(compact: Seq<char>, lower: Seq<char>)
    ensures
        ({
            let first = has_text(lower, "127.0.0.1:80"@) || has_text(
                lower,
                "failed to bind http listener"@,
            );
            let second = has_text(lower, "127.0.0.1:443"@) || has_text(
                lower,
                "failed to bind https listener"@,
            );
            let rights = has_text(lower, "elevation"@) || has_text(lower, "permission denied"@);
            let names = has_text(lower, "doh"@);
            let summary = error_summary(compact, lower);
            &&& first ==> summary == "80 端口监听失败，请查看详情"@
            &&& !first && second ==> summary == "443 端口监听失败，请查看详情"@
            &&& !first && !second && rights ==> summary == "权限申请失败，请查看详情"@
            &&& !first && !second && !rights && names ==> summary
                == "DoH 配置或连接失败，请查看详情"@
            &&& !first && !second && !rights && !names ==> {
                &&& compact.len() <= 34 ==> summary == compact
                &&& compact.len() > 34 ==> summary == compact.take(34) + "..."@
            }
        }),
        one_line(compact) == replaced(compact, '\n', " "@),
{
}

} // verus!
