//! Command URLs whose query parameters are each optional.

use vstd::prelude::*;
use vstd::string::*;

use super::enums::mode::{mode_value, Mode};
use super::enums::operation::{operation_value, Operation};
use crate::addr::ip_text;
use crate::text::{decimal, push_char, push_decimal};

verus! {

/// The parts joined by `&`, in order.
pub open spec fn join_params(parts: Seq<Seq<char>>) -> Seq<char>
    decreases parts.len(),
{
    if parts.len() == 0 {
        seq![]
    } else if parts.len() == 1 {
        parts[0]
    } else {
        join_params(parts.drop_last()) + seq!['&'] + parts.last()
    }
}

/// The query parameter `name=value` when a value is given, as a list of at
/// most one parameter.
pub open spec fn optional_param(name: Seq<char>, value: Option<nat>) -> Seq<Seq<char>> {
    match value {
        Some(v) => seq![name + decimal(v)],
        None => seq![],
    }
}

/// The query parameters sent: `key`, `operation` and `mode`, in that order,
/// each only when given.
pub open spec fn query_params(code: Option<u16>, operation: Option<Operation>, mode: Option<Mode>) -> Seq<Seq<char>> {
    optional_param("key="@, match code {
        Some(c) => Some(c as nat),
        None => None,
    }) + optional_param("operation="@, match operation {
        Some(o) => Some(operation_value(o) as nat),
        None => None,
    }) + optional_param("mode="@, match mode {
        Some(m) => Some(mode_value(m) as nat),
        None => None,
    })
}

/// The URL of a command: `http://{ip}:{port}/remoteControl/cmd?` followed by
/// the given parameters joined by `&`.
pub open spec fn query_url(
    ip: [u8; 4],
    port: u16,
    code: Option<u16>,
    operation: Option<Operation>,
    mode: Option<Mode>,
) -> Seq<char> {
    "http://"@ + ip_text(ip) + seq![':'] + decimal(port as nat) + "/remoteControl/cmd"@ + seq!['?']
        + join_params(query_params(code, operation, mode))
}

/// How many of the key code, operation and mode are given.
pub open spec fn given_count(code: Option<u16>, operation: Option<Operation>, mode: Option<Mode>) -> nat {
    (if code is Some { 1nat } else { 0nat }) + (if operation is Some { 1nat } else { 0nat }) + (
    if mode is Some {
        1nat
    } else {
        0nat
    })
}

/// Each parameter is sent exactly when it is given, independently of the
/// others: one query parameter per given value, each naming its value in
/// decimal, in the order key, operation, mode.
pub proof fn lemma_query_params_given(code: Option<u16>, operation: Option<Operation>, mode: Option<Mode>)
    ensures
        query_params(code, operation, mode).len() == given_count(code, operation, mode),
        code matches Some(c) ==> query_params(code, operation, mode).contains(
            "key="@ + decimal(c as nat),
        ),
        operation matches Some(o) ==> query_params(code, operation, mode).contains(
            "operation="@ + decimal(operation_value(o) as nat),
        ),
        mode matches Some(m) ==> query_params(code, operation, mode).contains(
            "mode="@ + decimal(mode_value(m) as nat),
        ),
        code matches Some(c) ==> query_params(code, operation, mode)[0] == "key="@ + decimal(
            c as nat,
        ),
        operation matches Some(o) ==> query_params(code, operation, mode)[if code is Some {
            1int
        } else {
            0int
        }] == "operation="@ + decimal(operation_value(o) as nat),
        mode matches Some(m) ==> query_params(code, operation, mode)[given_count(
            code,
            operation,
            mode,
        ) - 1] == "mode="@ + decimal(mode_value(m) as nat),
{
    let ps = query_params(code, operation, mode);
    let k = if code is Some { 1int } else { 0int };
    let o = if operation is Some { 1int } else { 0int };
    if let Some(c) = code {
        assert(ps[0] == "key="@ + decimal(c as nat));
    }
    if let Some(op) = operation {
        assert(ps[k] == "operation="@ + decimal(operation_value(op) as nat));
    }
    if let Some(m) = mode {
        assert(ps[k + o] == "mode="@ + decimal(mode_value(m) as nat));
    }
}

proof fn lemma_join_push(parts: Seq<Seq<char>>, p: Seq<char>)
    ensures
        join_params(parts.push(p)) == if parts.len() == 0 {
            p
        } else {
            join_params(parts) + seq!['&'] + p
        },
{
    if parts.len() == 0 {
        assert(parts.push(p) =~= seq![p]);
    } else {
        assert(parts.push(p).drop_last() =~= parts);
    }
}

/// Appends `name=value` to the query `q`, preceded by `&` unless it is the
/// first parameter, and extends the list of parameters sent so far.
fn push_param(q: &mut String, sent: Ghost<Seq<Seq<char>>>, first: bool, name: &str, value: u32) -> (new_sent: Ghost<Seq<Seq<char>>>)
    requires
        first == (sent@.len() == 0),
        old(q)@ == join_params(sent@),
    ensures
        new_sent@ == sent@.push(name@ + decimal(value as nat)),
        final(q)@ == join_params(new_sent@),
{
    if !first {
        push_char(q, '&');
    }
    q.append(name);
    push_decimal(q, value);
    let ghost p = name@ + decimal(value as nat);
    proof {
        lemma_join_push(sent@, p);
        assert(final(q)@ =~= join_params(sent@.push(p)));
    }
    Ghost(sent@.push(p))
}

/// The URL of a command to the decoder at `ip:port`, sending the key code,
/// operation and mode that are given (`key`, `operation`, `mode`, in that
/// order, joined by `&`).
pub fn generate_url(
    ip: &[u8; 4],
    port: &u16,
    code: Option<u16>,
    operation: Option<Operation>,
    mode: Option<Mode>,
) -> (url: String)
    ensures
        url@ == query_url(*ip, *port, code, operation, mode),
{
    let mut q = String::new();
    let mut sent: Ghost<Seq<Seq<char>>> = Ghost(Seq::<Seq<char>>::empty());
    let mut first: bool = true;
    proof {
        assert(q@ =~= join_params(sent@));
    }
    if let Some(c) = code {
        sent = push_param(&mut q, sent, first, "key=", c as u32);
        first = false;
    }
    if let Some(o) = operation {
        let v = o.value();
        sent = push_param(&mut q, sent, first, "operation=", v as u32);
        first = false;
    }
    if let Some(m) = mode {
        let v = m.value();
        sent = push_param(&mut q, sent, first, "mode=", v as u32);
    }
    proof {
        assert(sent@ =~= query_params(code, operation, mode));
    }
    let mut s = String::new();
    s.append("http://");
    push_decimal(&mut s, ip[0] as u32);
    push_char(&mut s, '.');
    push_decimal(&mut s, ip[1] as u32);
    push_char(&mut s, '.');
    push_decimal(&mut s, ip[2] as u32);
    push_char(&mut s, '.');
    push_decimal(&mut s, ip[3] as u32);
    push_char(&mut s, ':');
    push_decimal(&mut s, *port as u32);
    s.append("/remoteControl/cmd");
    push_char(&mut s, '?');
    s.append(q.as_str());
    proof {
        assert(s@ =~= query_url(*ip, *port, code, operation, mode));
    }
    s
}

} // verus!
