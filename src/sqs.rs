//! The decisions of the message-queue client: which messages to acknowledge,
//! what their bodies are, and when a send counts as failed.
use crate::errors::SimpleError;
use vstd::prelude::*;

verus! {

/// What the library reads of a received or sent queue message.
#[derive(Debug, Clone)]
pub struct QueueMessage {
    pub message_id: Option<String>,
    /// The text of the message.
    pub body: Option<String>,
    /// Needed to delete (acknowledge) the message.
    pub receipt_handle: Option<String>,
}

/// The receipt handles of `ms`, in order, skipping messages without one.
pub open spec fn handles_of(ms: Seq<QueueMessage>) -> Seq<Seq<char>>
    decreases ms.len(),
{
    if ms.len() == 0 {
        Seq::empty()
    } else {
        let rest = handles_of(ms.drop_last());
        match ms.last().receipt_handle {
            Some(h) => rest.push(h@),
            None => rest,
        }
    }
}

/// The body of `m`, empty when it has none.
pub open spec fn body_or_empty(m: QueueMessage) -> Seq<char> {
    match m.body {
        Some(b) => b@,
        None => Seq::empty(),
    }
}

/// The handles to delete after a poll that acknowledges on receipt: one for
/// each message that carries a handle, in order; the others are skipped.
pub fn receipt_handles(messages: &Vec<QueueMessage>) -> (r: Vec<String>)
    ensures
        r@.map_values(|h: String| h@) == handles_of(messages@),
{
    let mut r: Vec<String> = Vec::new();
    let mut i: usize = 0;
    while i < messages.len()
        invariant
            0 <= i <= messages@.len(),
            r@.map_values(|h: String| h@) == handles_of(messages@.take(i as int)),
        decreases messages@.len() - i,
    {
        proof {
            assert(messages@.take(i as int + 1).drop_last() =~= messages@.take(i as int));
            assert(messages@.take(i as int + 1).last() == messages@[i as int]);
        }
        match &messages[i].receipt_handle {
            Some(h) => {
                let ghost before = r@;
                r.push(h.clone());
                proof {
                    assert(r@.map_values(|h: String| h@) =~= before.map_values(|h: String| h@).push(
                        h@,
                    ));
                }
            },
            None => {},
        }
        i = i + 1;
    }
    proof {
        assert(messages@.take(messages@.len() as int) =~= messages@);
    }
    r
}

/// The bodies of `messages`, in order; a message without a body gives the
/// empty text.
pub fn message_bodies(messages: &Vec<QueueMessage>) -> (r: Vec<String>)
    ensures
        r@.len() == messages@.len(),
        forall|i: int| 0 <= i < r@.len() ==> (#[trigger] r@[i])@ == body_or_empty(messages@[i]),
{
    let mut r: Vec<String> = Vec::new();
    let mut i: usize = 0;
    while i < messages.len()
        invariant
            0 <= i <= messages@.len(),
            r@.len() == i,
            forall|j: int| 0 <= j < i ==> (#[trigger] r@[j])@ == body_or_empty(messages@[j]),
        decreases messages@.len() - i,
    {
        let body = match &messages[i].body {
            Some(b) => b.clone(),
            None => String::new(),
        };
        r.push(body);
        i = i + 1;
    }
    r
}

/// The error text when a send is answered without a message id.
pub open spec fn missing_id_message() -> Seq<char> {
    "push request did not return a message_id!"@
}

/// The id of a sent message; a send answered without one has failed.
pub fn message_id_or_error(message_id: Option<String>) -> (r: Result<String, SimpleError>)
    ensures
        match message_id {
            Some(id) => r matches Ok(v) && v@ == id@,
            None => r matches Err(e) && e.message@ == missing_id_message(),
        },
{
    match message_id {
        Some(id) => Ok(id),
        None => Err(SimpleError::from_str("push request did not return a message_id!")),
    }
}

/// The error text when a body cannot be decoded into the asked-for type.
pub open spec fn decode_failure_message() -> Seq<char> {
    "JSON dserialization error"@
}

/// The error of a typed poll in which some body could not be decoded; the
/// whole batch is then dropped.
pub fn decode_failure() -> (r: SimpleError)
    ensures
        r.message@ == decode_failure_message(),
{
    SimpleError::from_str("JSON dserialization error")
}

/// The decoded bodies of a typed poll, when every body decoded; one body that
/// did not decode fails the whole batch and the others are dropped.
pub fn all_decoded<T>(decoded: Vec<Option<T>>) -> (r: Result<Vec<T>, SimpleError>)
    ensures
        (forall|i: int| 0 <= i < decoded@.len() ==> (#[trigger] decoded@[i]) is Some) ==> (r matches Ok(
            v,
        ) && v@.len() == decoded@.len() && forall|i: int|
            0 <= i < v@.len() ==> decoded@[i] == Some(#[trigger] v@[i])),
        (exists|i: int| 0 <= i < decoded@.len() && (#[trigger] decoded@[i]) is None) ==> (r matches Err(
            e,
        ) && e.message@ == decode_failure_message()),
{
    let ghost d = decoded@;
    let n = decoded.len();
    let mut rest = decoded;
    let mut backwards: Vec<T> = Vec::new();
    while rest.len() > 0
        invariant
            d == decoded@,
            n == d.len(),
            rest@ == d.take(rest@.len() as int),
            rest@.len() + backwards@.len() == n,
            forall|j: int|
                0 <= j < backwards@.len() ==> d[n - 1 - j] == Some(#[trigger] backwards@[j]),
        decreases rest@.len(),
    {
        let ghost k = rest@.len() - 1;
        let item = rest.pop();
        proof {
            assert(rest@ =~= d.take(k));
        }
        match item {
            Some(Some(v)) => {
                backwards.push(v);
            },
            _ => {
                proof {
                    assert(d.take(k + 1)[k] == d[k]);
                    assert(d[k] is None);
                    assert(0 <= k < d.len());
                    assert(!(forall|i: int| 0 <= i < d.len() ==> (#[trigger] d[i]) is Some));
                }
                return Err(decode_failure());
            },
        }
    }
    let mut out: Vec<T> = Vec::new();
    while backwards.len() > 0
        invariant
            d == decoded@,
            n == d.len(),
            backwards@.len() + out@.len() == n,
            forall|j: int|
                0 <= j < backwards@.len() ==> d[n - 1 - j] == Some(#[trigger] backwards@[j]),
            forall|j: int| 0 <= j < out@.len() ==> d[j] == Some(#[trigger] out@[j]),
        decreases backwards@.len(),
    {
        let ghost k = backwards@.len() - 1;
        let v = backwards.pop().unwrap();
        proof {
            assert(d[n - 1 - k] == Some(v));
        }
        out.push(v);
    }
    proof {
        assert forall|i: int| 0 <= i < d.len() implies (#[trigger] d[i]) is Some by {
            assert(d[i] == Some(out@[i]));
        }
    }
    Ok(out)
}

} // verus!
