//! The script-facing MIDI surface: validation of outbound messages before
//! they may reach the transport, classification of the listener lookup,
//! and the naming of the virtual ports.

use vstd::prelude::*;

verus! {

/// One element of the list a script hands to the send primitive: either an
/// integer or something that is no number at all.
pub enum SendItem {
    Number(i64),
    NotANumber,
}

/// The argument a script hands to the send primitive: a list of items, or
/// something that is no list at all.
pub enum SendArg {
    List(Vec<SendItem>),
    NotAList,
}

/// An item that may stand in a MIDI message: an integer in the range of a
/// byte.
pub open spec fn item_is_byte(item: SendItem) -> bool {
    item matches SendItem::Number(v) && 0 <= v <= 255
}

/// A list whose every item may stand in a MIDI message.
pub open spec fn all_bytes(items: Seq<SendItem>) -> bool {
    forall|i: int| 0 <= i < items.len() ==> item_is_byte(#[trigger] items[i])
}

/// The bytes a valid list stands for.
pub open spec fn message_bytes(items: Seq<SendItem>) -> Seq<u8> {
    items.map_values(
        |item: SendItem|
            match item {
                SendItem::Number(v) => v as u8,
                SendItem::NotANumber => 0u8,
            },
    )
}

/// The report shown when a script hands the send primitive anything but a
/// list of bytes.
pub open spec fn send_error_text() -> Seq<char> {
    "Error calling \"midi.send\": Wrong argument type, please try to use a list of bytes (integers ranged to 0..=255) as an argument. Ex. [144, 65, 127]"@
}

/// Checks the argument of the send primitive. Only a list whose items are
/// all integers from 0 to 255 yields bytes for the transport; anything
/// else yields the protocol-error report and nothing is sent.
pub fn validate_send(arg: &SendArg) -> (r: Result<Vec<u8>, String>)
    ensures
        match r {
            Ok(bytes) => arg matches SendArg::List(items) && all_bytes(items@) && bytes@
                == message_bytes(items@),
            Err(m) => m@ == send_error_text() && !(arg matches SendArg::List(items) && all_bytes(
                items@,
            )),
        },
{
    match arg {
        SendArg::List(items) => {
            let mut bytes: Vec<u8> = Vec::new();
            let mut i: usize = 0;
            proof {
                assert(bytes@ =~= message_bytes(items@.subrange(0, 0)));
            }
            while i < items.len()
                invariant
                    i <= items.len(),
                    arg matches SendArg::List(inner) && inner@ == items@,
                    forall|j: int| 0 <= j < i ==> item_is_byte(#[trigger] items@[j]),
                    bytes@ == message_bytes(items@.subrange(0, i as int)),
                decreases items.len() - i,
            {
                let ok = match items[i] {
                    SendItem::Number(v) => 0 <= v && v <= 255,
                    SendItem::NotANumber => false,
                };
                if !ok {
                    proof {
                        assert(!all_bytes(items@)) by {
                            assert(0 <= i < items@.len() && !item_is_byte(items@[i as int]));
                        }
                    }
                    return Err(send_error_report());
                }
                let b: u8 = match items[i] {
                    SendItem::Number(v) => v as u8,
                    SendItem::NotANumber => 0,
                };
                bytes.push(b);
                proof {
                    let with_next = items@.subrange(0, i + 1 as int);
                    assert(with_next.drop_last() =~= items@.subrange(0, i as int));
                    assert(message_bytes(with_next) =~= message_bytes(
                        items@.subrange(0, i as int),
                    ).push(message_bytes(with_next).last()));
                }
                i = i + 1;
            }
            proof {
                assert(items@.subrange(0, items@.len() as int) =~= items@);
            }
            Ok(bytes)
        },
        SendArg::NotAList => Err(send_error_report()),
    }
}

/// One out-of-range value — 256, say — or one item that is no number
/// spoils the whole list: it does not stand for a message, so
/// `validate_send` yields the protocol-error report and nothing ever
/// reaches the transport's send.
pub proof fn lemma_bad_item_spoils_message(items: Seq<SendItem>, i: int)
    requires
        0 <= i < items.len(),
        !item_is_byte(items[i]),
    ensures
        !all_bytes(items),
{
}

/// The protocol-error report as a value.
fn send_error_report() -> (m: String)
    ensures
        m@ == send_error_text(),
{
    String::from_str(
        "Error calling \"midi.send\": Wrong argument type, please try to use a list of bytes (integers ranged to 0..=255) as an argument. Ex. [144, 65, 127]",
    )
}

/// What looking up the script's listener function can find: the `midi`
/// module may be missing from the prelude, present but no map, without a
/// `listen` entry, with one that is no function, or with a callable
/// listener.
pub enum ListenerLookup {
    MissingModule,
    ModuleNotAMap,
    MissingListener,
    ListenerNotCallable,
    Callable,
}

/// The report for a lookup that found no callable listener.
pub open spec fn lookup_error_text(lookup: ListenerLookup) -> Seq<char> {
    match lookup {
        ListenerLookup::MissingModule => "Try importing \"midi\" on top of your script like \"import midi\""@,
        ListenerLookup::ModuleNotAMap => "\"midi\" has been found but it is not a map. Try importing \"midi\" on top of your script like \"import midi\". And do not use the same name further."@,
        ListenerLookup::MissingListener => "Try defining a function as \"midi.listen\". If not there please try importing \"midi\" on top of your script like \"import midi\"."@,
        ListenerLookup::ListenerNotCallable => "\"midi.listen\" is defined but it is not a function"@,
        ListenerLookup::Callable => ""@,
    }
}

/// Decides what a listener lookup means: only a callable listener may be
/// invoked; every other outcome is a structural error in the script's
/// setup, reported once and not retried.
pub fn listener_check(lookup: &ListenerLookup) -> (r: Result<(), String>)
    ensures
        match r {
            Ok(()) => lookup is Callable,
            Err(m) => !(lookup is Callable) && m@ == lookup_error_text(*lookup),
        },
{
    match lookup {
        ListenerLookup::MissingModule => Err(
            String::from_str("Try importing \"midi\" on top of your script like \"import midi\""),
        ),
        ListenerLookup::ModuleNotAMap => Err(
            String::from_str(
                "\"midi\" has been found but it is not a map. Try importing \"midi\" on top of your script like \"import midi\". And do not use the same name further.",
            ),
        ),
        ListenerLookup::MissingListener => Err(
            String::from_str(
                "Try defining a function as \"midi.listen\". If not there please try importing \"midi\" on top of your script like \"import midi\".",
            ),
        ),
        ListenerLookup::ListenerNotCallable => Err(
            String::from_str("\"midi.listen\" is defined but it is not a function"),
        ),
        ListenerLookup::Callable => Ok(()),
    }
}

/// The names of the virtual input and output ports: a chosen prefix with
/// `_in` and `_out`, or the default pair.
pub fn port_names(prefix: Option<&str>) -> (r: (String, String))
    ensures
        match prefix {
            Some(p) => r.0@ == p@ + "_in"@ && r.1@ == p@ + "_out"@,
            None => r.0@ == "mep_in"@ && r.1@ == "mep_out"@,
        },
{
    match prefix {
        Some(p) => {
            let mut input = p.to_owned();
            input.append("_in");
            let mut output = p.to_owned();
            output.append("_out");
            (input, output)
        },
        None => (String::from_str("mep_in"), String::from_str("mep_out")),
    }
}

} // verus!
