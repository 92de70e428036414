use vstd::prelude::*;
use vstd::string::StrSliceExecFns;
use vstd::string::StringExecFns;

verus! {

/// What a JSON string literal for the text `s` looks like, as `serde_json` writes it.
pub uninterp spec fn json_quote(s: Seq<char>) -> Seq<char>;

/// Relies on `serde_json::to_string` on a `str`: the quoted, escaped JSON
/// string literal for `s`. Serialising a `str` into the in-memory buffer that
/// `to_string` uses cannot fail.
#[verifier::external_body]
fn quote_json(s: &str) -> (r: String)
    ensures
        r@ == json_quote(s@),
{
    match serde_json::to_string(s) {
        Ok(t) => t,
        Err(_) => String::new(),
    }
}

/// Relies on `serde_json::from_str::<String>`: a string literal that
/// `serde_json` wrote for some text is read back as that text.
#[verifier::external_body]
fn unquote_json(t: &str) -> (r: Option<String>)
    ensures
        forall|x: Seq<char>| #[trigger] json_quote(x) == t@ ==> (r is Some && r->Some_0@ == x),
{
    serde_json::from_str::<String>(t).ok()
}

/// A message that crosses the bus.
#[derive(Debug)]
pub enum Message {
    /// A unit of work with an opaque textual payload.
    WorkItem(String),
    /// A shutdown marker.
    Terminator,
}

/// The mathematical value of a [`Message`].
pub enum MessageModel {
    WorkItem(Seq<char>),
    Terminator,
}

impl View for Message {
    type V = MessageModel;

    open spec fn view(&self) -> MessageModel {
        match self {
            Message::WorkItem(p) => MessageModel::WorkItem(p@),
            Message::Terminator => MessageModel::Terminator,
        }
    }
}

impl PartialEq for Message {
    fn eq(&self, o: &Message) -> (r: bool) {
        match self {
            Message::WorkItem(a) => match o {
                Message::WorkItem(b) => a.eq(b),
                Message::Terminator => false,
            },
            Message::Terminator => match o {
                Message::WorkItem(_) => false,
                Message::Terminator => true,
            },
        }
    }
}

impl vstd::std_specs::cmp::PartialEqSpecImpl for Message {
    open spec fn obeys_eq_spec() -> bool {
        true
    }

    open spec fn eq_spec(&self, o: &Message) -> bool {
        self@ == o@
    }
}

impl Eq for Message {
}

/// The reason a byte sequence was not accepted as a message.
#[derive(Clone, Copy, Debug, PartialEq, Eq, Structural)]
pub enum DecodeError {
    /// The text is not the encoding of any message.
    Malformed,
}

/// The text that opens the encoding of a work item.
pub open spec fn work_item_open() -> Seq<char> {
    "{\"LocalTimeMessage\":"@
}

/// The text that closes the encoding of a work item.
pub open spec fn work_item_close() -> Seq<char> {
    "}"@
}

/// The whole encoding of the terminator.
pub open spec fn terminator_text() -> Seq<char> {
    "\"EndMessage\""@
}

/// The wire form of a message: a work item is an object whose one field,
/// named after the variant, holds the payload as a JSON string; the
/// terminator is the variant's name as a JSON string.
pub open spec fn encoding(m: MessageModel) -> Seq<char> {
    match m {
        MessageModel::WorkItem(p) => work_item_open() + json_quote(p) + work_item_close(),
        MessageModel::Terminator => terminator_text(),
    }
}

/// Whether `t` is the wire form of some message.
pub open spec fn is_encoding(t: Seq<char>) -> bool {
    exists|m: MessageModel| #[trigger] encoding(m) == t
}

/// Writes `m` in its wire form.
pub fn encode(m: &Message) -> (r: String)
    ensures
        r@ == encoding(m@),
{
    match m {
        Message::WorkItem(p) => {
            let q = quote_json(p.as_str());
            let r = String::from_str("{\"LocalTimeMessage\":").concat(q.as_str()).concat("}");
            r
        },
        Message::Terminator => String::from_str("\"EndMessage\""),
    }
}

/// Whether `t` begins at char `start` with the chars of `p`.
fn matches_at(t: &str, start: usize, p: &str) -> (r: bool)
    requires
        start <= t@.len(),
    ensures
        r == (start + p@.len() <= t@.len() && t@.subrange(start as int, start + p@.len())
            == p@),
{
    let tn = t.unicode_len();
    let pn = p.unicode_len();
    if pn > tn - start {
        return false;
    }
    let mut i: usize = 0;
    while i < pn
        invariant
            i <= pn,
            pn == p@.len(),
            tn == t@.len(),
            start + pn <= tn,
            forall|k: int| 0 <= k < i ==> t@[start + k] == p@[k],
        decreases pn - i,
    {
        if t.get_char(start + i) != p.get_char(i) {
            assert(t@.subrange(start as int, start + p@.len())[i as int] != p@[i as int]);
            return false;
        }
        i = i + 1;
    }
    assert(t@.subrange(start as int, start + p@.len()) =~= p@);
    true
}

/// Reads a message from its wire form. Exactly the texts that [`encode`]
/// writes are accepted, and each is read back as the message it was written
/// from.
pub fn decode(t: &str) -> (r: Result<Message, DecodeError>)
    ensures
        r is Ok ==> encoding(r->Ok_0@) == t@,
        r is Err <==> !is_encoding(t@),
        forall|m: MessageModel| #[trigger] encoding(m) == t@ ==> (r is Ok && r->Ok_0@ == m),
{
    proof {
        reveal_strlit("{\"LocalTimeMessage\":");
        reveal_strlit("}");
        reveal_strlit("\"EndMessage\"");
    }
    let n = t.unicode_len();
    if matches_at(t, 0, "\"EndMessage\"") && n == 12 {
        assert(t@ =~= terminator_text());
        assert(encoding(MessageModel::Terminator) == t@);
        proof {
            assert forall|m: MessageModel| #[trigger] encoding(m) == t@ implies m
                == MessageModel::Terminator by {
                if let MessageModel::WorkItem(p) = m {
                    assert(encoding(m)[0] == '{');
                }
            }
        }
        return Ok(Message::Terminator);
    }
    if n >= 21 && matches_at(t, 0, "{\"LocalTimeMessage\":") && t.get_char(n - 1) == '}' {
        let inner = t.substring_char(20, n - 1);
        proof {
            assert forall|m: MessageModel| #[trigger] encoding(m) == t@ implies (m
                is WorkItem && json_quote(m->WorkItem_0) == inner@) by {
                if m is Terminator {
                    assert(encoding(m)[0] == '"');
                    assert(t@[0] == '{');
                } else {
                    let p = m->WorkItem_0;
                    assert(t@ == work_item_open() + json_quote(p) + work_item_close());
                    assert(inner@ =~= json_quote(p));
                }
            }
        }
        let inner_text = String::from_str(inner);
        match unquote_json(inner) {
            Some(payload) => {
                let again = quote_json(payload.as_str());
                if again == inner_text {
                    assert(encoding(MessageModel::WorkItem(payload@)) =~= t@);
                    return Ok(Message::WorkItem(payload));
                }
            },
            None => {},
        }
        proof {
            if is_encoding(t@) {
                let m = choose|m: MessageModel| #[trigger] encoding(m) == t@;
                assert(json_quote(m->WorkItem_0) == inner@);
            }
        }
        return Err(DecodeError::Malformed);
    }
    proof {
        assert forall|m: MessageModel| #[trigger] encoding(m) != t@ by {
            if m is Terminator {
                if encoding(m) == t@ {
                    assert(t@.subrange(0, 12) =~= terminator_text());
                }
            } else {
                if encoding(m) == t@ {
                    let p = m->WorkItem_0;
                    assert(t@.subrange(0, 20) =~= work_item_open());
                    assert(t@[t@.len() - 1] == '}');
                }
            }
        }
    }
    Err(DecodeError::Malformed)
}

} // verus!
