//! The text that spans and events are shown with in a system trace.

use crate::text::same_text;
use vstd::prelude::*;
use vstd::string::*;

verus! {

/// The name of the field that holds the message of an event.
pub const MESSAGE_FIELD: &'static str = "message";

/// What stands between two parts of a label.
pub open spec fn separator() -> Seq<char> {
    seq![',', ' ']
}

/// What stands between the name of a field and its value.
pub open spec fn assignment() -> Seq<char> {
    seq![' ', '=', ' ']
}

/// What follows the level in the label of an event that has no text.
pub open spec fn event_suffix() -> Seq<char> {
    seq![' ', 'e', 'v', 'e', 'n', 't']
}

/// How one field is shown: the message of an event by its value alone, any
/// other field as `name = value`.
pub open spec fn shown_field(is_event: bool, name: Seq<char>, value: Seq<char>) -> Seq<char> {
    if is_event && name == MESSAGE_FIELD@ {
        value
    } else {
        name + assignment() + value
    }
}

/// The text of the fields after one more was recorded: the fields are
/// separated by a comma and a space.
pub open spec fn recorded(
    text: Seq<char>,
    is_event: bool,
    name: Seq<char>,
    value: Seq<char>,
) -> Seq<char> {
    if text.len() == 0 {
        shown_field(is_event, name, value)
    } else {
        text + separator() + shown_field(is_event, name, value)
    }
}

/// The label of a span: its name, and after it the recorded fields where
/// there are any.
pub open spec fn span_label_of(name: Seq<char>, fields: Option<Seq<char>>) -> Seq<char> {
    match fields {
        Some(text) => if text.len() == 0 {
            name
        } else {
            name + separator() + text
        },
        None => name,
    }
}

/// The label of an event: its text, or the level followed by ` event` where
/// it has none.
pub open spec fn event_label_of(text: Seq<char>, level: Seq<char>) -> Seq<char> {
    if text.len() == 0 {
        level + event_suffix()
    } else {
        text
    }
}

/// Collects the fields of a span or of an event into one text.
#[derive(Debug)]
pub struct FieldFormatter {
    is_event: bool,
    s: String,
}

impl FieldFormatter {
    /// Whether the fields are those of an event.
    pub closed spec fn of_event(&self) -> bool {
        self.is_event
    }

    /// The text collected so far.
    pub closed spec fn text(&self) -> Seq<char> {
        self.s@
    }

    /// A formatter for the fields of an event, with nothing collected yet.
    pub fn for_event() -> (formatter: FieldFormatter)
        ensures
            formatter.of_event(),
            formatter.text() == Seq::<char>::empty(),
    {
        FieldFormatter { is_event: true, s: String::new() }
    }

    /// A formatter for the fields of a span, with nothing collected yet.
    pub fn for_span() -> (formatter: FieldFormatter)
        ensures
            !formatter.of_event(),
            formatter.text() == Seq::<char>::empty(),
    {
        FieldFormatter { is_event: false, s: String::new() }
    }

    /// The text collected so far.
    pub fn as_string(&self) -> (text: &String)
        ensures
            text@ == self.text(),
    {
        &self.s
    }

    /// Whether nothing was collected.
    pub fn is_empty(&self) -> (empty: bool)
        ensures
            empty == (self.text().len() == 0),
    {
        self.s.as_str().is_empty()
    }

    /// Records the field `name`, whose value is shown as `value`.
    pub fn record_debug(&mut self, name: &str, value: &str)
        ensures
            final(self).of_event() == old(self).of_event(),
            final(self).text() == recorded(old(self).text(), old(self).of_event(), name@, value@),
    {
        proof {
            reveal_strlit(", ");
            reveal_strlit(" = ");
        }
        if !self.s.as_str().is_empty() {
            self.s.append(", ");
            assert(", "@ =~= separator());
        }
        if self.is_event && same_text(name, MESSAGE_FIELD) {
            self.s.append(value);
        } else {
            self.s.append(name);
            self.s.append(" = ");
            assert(" = "@ =~= assignment());
            self.s.append(value);
        }
        assert(self.s@ =~= recorded(old(self).text(), old(self).of_event(), name@, value@));
    }
}

/// Records the field `name` for an event of which only the message is shown:
/// the value is added to `text` where the field is the message, and dropped
/// where it is not.
pub fn record_message(text: &mut String, name: &str, value: &str)
    ensures
        final(text)@ == (if name@ == MESSAGE_FIELD@ {
            old(text)@ + value@
        } else {
            old(text)@
        }),
{
    if same_text(name, MESSAGE_FIELD) {
        text.append(value);
    }
}

/// The label of the span `name`. `fields` holds the fields recorded for the
/// span, or `None` where fields are not recorded.
pub fn span_label(name: &str, fields: Option<&FieldFormatter>) -> (label: String)
    ensures
        label@ == span_label_of(
            name@,
            match fields {
                Some(f) => Some(f.text()),
                None => None,
            },
        ),
{
    let mut label = String::from_str(name);
    match fields {
        Some(formatter) => {
            if !formatter.is_empty() {
                proof {
                    reveal_strlit(", ");
                }
                label.append(", ");
                assert(", "@ =~= separator());
                label.append(formatter.as_string().as_str());
            }
        },
        None => {},
    }
    label
}

/// The label of an event with the text `text` at the level `level`.
pub fn event_label(text: String, level: &str) -> (label: String)
    ensures
        label@ == event_label_of(text@, level@),
{
    if text.as_str().is_empty() {
        let mut label = String::from_str(level);
        proof {
            reveal_strlit(" event");
        }
        label.append(" event");
        assert(" event"@ =~= event_suffix());
        label
    } else {
        text
    }
}

} // verus!
