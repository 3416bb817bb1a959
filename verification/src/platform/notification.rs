//! The notification that a task is done.

use vstd::prelude::*;

use crate::text::{cat, cat3, opt, same, to_chars};

verus! {

/// What the user can do from the notification.
#[derive(Clone, Debug, PartialEq, Eq)]
pub struct NotificationAction {
    pub label: String,
    pub thread_id: Option<String>,
    pub codex_path: Option<String>,
}

/// The content of a [`NotificationAction`].
pub struct NotificationActionView {
    pub label: Seq<char>,
    pub thread_id: Option<Seq<char>>,
    pub codex_path: Option<Seq<char>>,
}

impl View for NotificationAction {
    type V = NotificationActionView;

    open spec fn view(&self) -> NotificationActionView {
        NotificationActionView {
            label: self.label@,
            thread_id: opt(self.thread_id),
            codex_path: opt(self.codex_path),
        }
    }
}

impl NotificationAction {
    /// The action that opens a thread.
    pub fn open_thread(thread_id: &str, codex_path: &str) -> (r: NotificationAction)
        ensures
            r@ == (NotificationActionView {
                label: "查看"@,
                thread_id: Some(thread_id@),
                codex_path: Some(codex_path@),
            }),
    {
        NotificationAction {
            label: "查看".to_owned(),
            thread_id: Some(thread_id.to_owned()),
            codex_path: Some(codex_path.to_owned()),
        }
    }

    /// The thread to open and the command to open it with, where both are known.
    pub fn open(&self) -> (r: Option<(String, String)>)
        ensures
            match r {
                Some((thread_id, codex_path)) => {
                    &&& self@.thread_id == Some(thread_id@)
                    &&& self@.codex_path == Some(codex_path@)
                },
                None => self@.thread_id is None || self@.codex_path is None,
            },
    {
        match (&self.thread_id, &self.codex_path) {
            (Some(thread_id), Some(codex_path)) => Some((thread_id.clone(), codex_path.clone())),
            _ => None,
        }
    }
}

/// Why a notification could not be shown.
#[derive(Clone, Debug, PartialEq, Eq)]
pub enum NotificationError {
    Native(String),
}

impl NotificationError {
    /// The text of the error.
    pub fn message(&self) -> (r: String)
        ensures
            r@ == "native notification failed: "@ + self->Native_0@,
    {
        match self {
            NotificationError::Native(text) => cat("native notification failed: ", text.as_str()),
        }
    }
}

/// Whether the choice that a Linux desktop reports opens the thread.
pub fn opens_thread(selected: &str) -> (r: bool)
    ensures
        r == (selected@ == "open"@ || selected@ == "default"@),
{
    same(selected, "open") || same(selected, "default")
}

/// What stands for a character in XML.
pub open spec fn xml_char(c: char) -> Seq<char> {
    if c == '&' {
        "&amp;"@
    } else if c == '<' {
        "&lt;"@
    } else if c == '>' {
        "&gt;"@
    } else if c == '"' {
        "&quot;"@
    } else if c == '\'' {
        "&apos;"@
    } else {
        seq![c]
    }
}

/// What stands for a text in XML.
pub open spec fn xml_text(text: Seq<char>) -> Seq<char>
    decreases text.len(),
{
    if text.len() == 0 {
        Seq::empty()
    } else {
        xml_text(text.drop_last()) + xml_char(text.last())
    }
}

/// What stands for a text in XML.
pub fn escape_xml(input: &str) -> (r: String)
    ensures
        r@ == xml_text(input@),
{
    let chars = to_chars(input);
    let mut out = String::new();
    let mut i: usize = 0;
    while i < chars.len()
        invariant
            i <= chars@.len(),
            out@ == xml_text(chars@.take(i as int)),
        decreases chars.len() - i,
    {
        assert(chars@.take(i + 1).drop_last() =~= chars@.take(i as int));
        let ghost before = out@;
        let c = chars[i];
        if c == '&' {
            out.push_str("&amp;");
        } else if c == '<' {
            out.push_str("&lt;");
        } else if c == '>' {
            out.push_str("&gt;");
        } else if c == '"' {
            out.push_str("&quot;");
        } else if c == '\'' {
            out.push_str("&apos;");
        } else {
            out.push(c);
            assert(out@ =~= before + seq![c]);
        }
        i = i + 1;
    }
    assert(chars@.take(chars@.len() as int) =~= input@);
    out
}

/// Whether a text can stand in XML, between tags or between double quotes,
/// without ending either.
pub open spec fn xml_safe(text: Seq<char>) -> bool {
    forall|i: int| 0 <= i < text.len() ==> {
        let c = #[trigger] text[i];
        c != '<' && c != '>' && c != '"' && c != '\''
    }
}

/// No text, however it is made up, breaks out of the place in which it is put.
pub proof fn escaped_text_is_safe(text: Seq<char>)
    ensures
        xml_safe(xml_text(text)),
    decreases text.len(),
{
    reveal_strlit("&amp;");
    reveal_strlit("&lt;");
    reveal_strlit("&gt;");
    reveal_strlit("&quot;");
    reveal_strlit("&apos;");
    if text.len() > 0 {
        escaped_text_is_safe(text.drop_last());
        let before = xml_text(text.drop_last());
        let last = xml_char(text.last());
        assert(xml_safe(last));
        let all = xml_text(text);
        assert forall|i: int| 0 <= i < all.len() implies {
            let c = #[trigger] all[i];
            c != '<' && c != '>' && c != '"' && c != '\''
        } by {
            if i < before.len() {
                assert(all[i] == before[i]);
            } else {
                assert(all[i] == last[i - before.len()]);
            }
        }
    }
}

/// The button of a Windows notification.
pub open spec fn toast_button(label: Seq<char>) -> Seq<char> {
    "<actions><action content=\""@ + xml_text(label)
        + "\" arguments=\"open-result\" activationType=\"foreground\"/></actions>"@
}

/// The texts of a Windows notification.
pub open spec fn toast_visual(title: Seq<char>, body: Seq<char>) -> Seq<char> {
    "<visual><binding template=\"ToastGeneric\"><text>"@ + xml_text(title) + "</text><text>"@
        + xml_text(body) + "</text></binding></visual>"@
}

/// The document of a Windows notification.  With sound it is an alarm that goes
/// on until it is answered; without it is silent.
pub open spec fn toast_xml(
    title: Seq<char>,
    body: Seq<char>,
    action: Option<NotificationActionView>,
    audio_enabled: bool,
) -> Seq<char> {
    if audio_enabled {
        "<toast scenario=\"alarm\" duration=\"long\">"@ + toast_visual(title, body)
            + "<audio src=\"ms-winsoundevent:Notification.Looping.Alarm\" loop=\"true\"/>"@ + (
        match action {
            Some(action) => toast_button(action.label),
            None => "<commands scenario=\"alarm\"><command id=\"dismiss\"/></commands>"@,
        }) + "</toast>"@
    } else {
        "<toast>"@ + toast_visual(title, body) + "<audio silent=\"true\"/>"@ + (match action {
            Some(action) => toast_button(action.label),
            None => Seq::empty(),
        }) + "</toast>"@
    }
}

fn button_xml(label: &str) -> (r: String)
    ensures
        r@ == toast_button(label@),
{
    cat3(
        "<actions><action content=\"",
        escape_xml(label).as_str(),
        "\" arguments=\"open-result\" activationType=\"foreground\"/></actions>",
    )
}

fn visual_xml(title: &str, body: &str) -> (r: String)
    ensures
        r@ == toast_visual(title@, body@),
{
    let mut out = cat3(
        "<visual><binding template=\"ToastGeneric\"><text>",
        escape_xml(title).as_str(),
        "</text><text>",
    );
    out.push_str(escape_xml(body).as_str());
    out.push_str("</text></binding></visual>");
    out
}

/// The document of a Windows notification.
pub fn windows_toast_xml(
    title: &str,
    body: &str,
    action: Option<&NotificationAction>,
    audio_enabled: bool,
) -> (r: String)
    ensures
        r@ == toast_xml(title@, body@, opt(action), audio_enabled),
{
    let visual = visual_xml(title, body);
    if audio_enabled {
        let controls = match action {
            Some(action) => button_xml(action.label.as_str()),
            None => "<commands scenario=\"alarm\"><command id=\"dismiss\"/></commands>".to_owned(),
        };
        let mut out = cat3(
            "<toast scenario=\"alarm\" duration=\"long\">",
            visual.as_str(),
            "<audio src=\"ms-winsoundevent:Notification.Looping.Alarm\" loop=\"true\"/>",
        );
        out.push_str(controls.as_str());
        out.push_str("</toast>");
        return out;
    }
    let actions = match action {
        Some(action) => button_xml(action.label.as_str()),
        None => String::new(),
    };
    let ghost shown = match opt(action) {
        Some(action) => toast_button(action.label),
        None => Seq::empty(),
    };
    assert(actions@ =~= shown);
    let mut out = cat3("<toast>", visual.as_str(), "<audio silent=\"true\"/>");
    out.push_str(actions.as_str());
    out.push_str("</toast>");
    out
}

/// Whether the sound is played by other means: the notification failed and the
/// user wants to hear it.
pub fn plays_sound_instead(shown: bool, audio_enabled: bool) -> (r: bool)
    ensures
        r == (!shown && audio_enabled),
{
    !shown && audio_enabled
}

} // verus!
