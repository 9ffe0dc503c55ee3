//! The event dispatcher: a closed tagged union of five event shapes and a
//! total operation that renders each event as one descriptive line.

use vstd::prelude::*;
use vstd::string::StringExecFns;
use crate::decimal::i64_to_string;
use crate::decimal::spec_idec;

verus! {

/// Relies on String::push: appends the given character to the end of the
/// string.
pub assume_specification[ String::push ](s: &mut String, c: char)
    ensures
        final(s)@ == old(s)@ + seq![c],
;

/// A web event: exactly one variant is active per value, and a payload is
/// meaningful only for its own variant.
pub enum Event {
    PageLoad,
    PageUnload,
    KeyPress(char),
    Paste(String),
    Click { x: i64, y: i64 },
}

/// The descriptive line for an event, as a sequence of characters: the
/// variant-specific template with the payload spliced in.
pub open spec fn spec_describe(e: Event) -> Seq<char> {
    match e {
        Event::PageLoad => "page loaded"@,
        Event::PageUnload => "page unloaded"@,
        Event::KeyPress(c) => "pressed '"@ + seq![c] + "'."@,
        Event::Paste(s) => "pasted \""@ + s@ + "\"."@,
        Event::Click { x, y } => "clicked at x="@ + spec_idec(x as int) + ", y="@ + spec_idec(
            y as int,
        ) + "."@,
    }
}

/// Dispatches an event: classifies its variant and produces the descriptive
/// line for it. Total over the closed variant set; cannot fail.
pub fn describe(event: Event) -> (line: String)
    ensures
        line@ == spec_describe(event),
{
    match event {
        Event::PageLoad => "page loaded".to_owned(),
        Event::PageUnload => "page unloaded".to_owned(),
        Event::KeyPress(c) => {
            let mut s = "pressed '".to_owned();
            s.push(c);
            s.append("'.");
            proof {
                assert(s@ =~= spec_describe(Event::KeyPress(c)));
            }
            s
        },
        Event::Paste(t) => {
            let mut s = "pasted \"".to_owned();
            s.append(t.as_str());
            s.append("\".");
            proof {
                assert(s@ =~= spec_describe(Event::Paste(t)));
            }
            s
        },
        Event::Click { x, y } => {
            let mut s = "clicked at x=".to_owned();
            let xs = i64_to_string(x);
            s.append(xs.as_str());
            s.append(", y=");
            let ys = i64_to_string(y);
            s.append(ys.as_str());
            s.append(".");
            proof {
                assert(s@ =~= spec_describe(Event::Click { x, y }));
            }
            s
        },
    }
}

/// Whether a character sequence forms exactly one line: nonempty, with no
/// newline character in it.
pub open spec fn spec_single_line(s: Seq<char>) -> bool {
    &&& s.len() > 0
    &&& forall|i: int| 0 <= i < s.len() ==> s[i] != '\n'
}

/// Whether an event's payload is free of newline characters. Trivially true
/// for the variants that carry no text.
pub open spec fn spec_payload_single_line(e: Event) -> bool {
    match e {
        Event::KeyPress(c) => c != '\n',
        Event::Paste(s) => forall|i: int| 0 <= i < s@.len() ==> s@[i] != '\n',
        _ => true,
    }
}

/// Dispatching produces exactly one line: for every event whose payload holds
/// no newline character, the descriptive line is nonempty and holds none
/// either.
pub proof fn lemma_describe_single_line(e: Event)
    requires
        spec_payload_single_line(e),
    ensures
        spec_single_line(spec_describe(e)),
{
    reveal_strlit("page loaded");
    reveal_strlit("page unloaded");
    reveal_strlit("pressed '");
    reveal_strlit("'.");
    reveal_strlit("pasted \"");
    reveal_strlit("\".");
    reveal_strlit("clicked at x=");
    reveal_strlit(", y=");
    reveal_strlit(".");
    match e {
        Event::Click { x, y } => {
            crate::decimal::lemma_idec_chars(x as int);
            crate::decimal::lemma_idec_chars(y as int);
        },
        _ => {},
    }
}

/// Dispatch depends on the event value alone: equivalent inputs yield the
/// identical line, so repeated dispatch repeats the same output and touches no
/// other state.
pub proof fn lemma_describe_deterministic(e1: Event, e2: Event)
    requires
        e1 == e2,
    ensures
        spec_describe(e1) == spec_describe(e2),
{
}

/// Dispatches a sequence of events: the output lines come in exactly the call
/// order, one line per event, with no interleaving or reordering.
pub fn describe_all(events: Vec<Event>) -> (lines: Vec<String>)
    ensures
        lines@.len() == events@.len(),
        forall|i: int|
            0 <= i < events@.len() ==> (#[trigger] lines@[i])@ == spec_describe(events@[i]),
{
    let ghost orig: Seq<Event> = events@;
    let mut rest = events;
    let mut lines: Vec<String> = Vec::new();
    while rest.len() > 0
        invariant
            lines@.len() + rest@.len() == orig.len(),
            rest@ == orig.skip(lines@.len() as int),
            forall|i: int|
                0 <= i < lines@.len() ==> (#[trigger] lines@[i])@ == spec_describe(orig[i]),
        decreases rest@.len(),
    {
        let e = rest.remove(0);
        proof {
            assert(e == orig[lines@.len() as int]);
            assert(rest@ =~= orig.skip(lines@.len() as int + 1));
        }
        let line = describe(e);
        lines.push(line);
    }
    lines
}

} // verus!
