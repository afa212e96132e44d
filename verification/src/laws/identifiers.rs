//! How identifiers are told apart, and what is changed of a message with another identifier.
use crate::message::{ClientMessageView, RequestIdView, ServerMessageView};
use vstd::prelude::*;

verus! {

/// The number that decimal digits stand for.
pub open spec fn value_of(digits: Seq<char>) -> int
    decreases digits.len(),
{
    if digits.len() == 0 {
        0
    } else {
        10 * value_of(digits.drop_last()) + (digits.last() as int - '0' as int)
    }
}

/// A number is written in digits alone, without leading zeros, and the digits stand for it.
pub proof fn law_decimal_is_read_back(n: nat)
    ensures
        value_of(crate::message::decimal(n)) == n,
        crate::message::decimal(n).len() > 0,
        forall|i: int|
            0 <= i < crate::message::decimal(n).len() ==> '0' <= #[trigger] crate::message::decimal(
                n,
            )[i] <= '9',
        n > 0 ==> crate::message::decimal(n)[0] != '0',
        n == 0 ==> crate::message::decimal(n).len() == 1,
    decreases n,
{
    let digits = crate::message::decimal(n);
    if n < 10 {
        assert(digits.drop_last() =~= Seq::empty());
        assert(value_of(digits.drop_last()) == 0);
        assert(digits.last() as int == 48 + n);
    } else {
        law_decimal_is_read_back(n / 10);
        assert(digits.drop_last() =~= crate::message::decimal(n / 10));
        assert(digits.last() as int == 48 + n % 10);
    }
}

/// A text is looked up as it is, and a number by its decimal digits, behind a minus sign
/// where it is negative.
pub proof fn law_lookup_key(text: Seq<char>, n: i64)
    ensures
        RequestIdView::Text(text).key() == text,
        n >= 0 ==> value_of(RequestIdView::Number(n).key()) == n,
        n < 0 ==> {
            let key = RequestIdView::Number(n).key();
            &&& key[0] == '-'
            &&& key.len() > 1
            &&& key[1] != '0'
            &&& value_of(key.skip(1)) == -n
        },
        n > 0 ==> RequestIdView::Number(n).key()[0] != '0',
        n == 0 ==> RequestIdView::Number(n).key().len() == 1,
        RequestIdView::Number(n).key().len() > 0,
        forall|i: int|
            0 <= i < RequestIdView::Number(n).key().len() ==> {
                ||| '0' <= #[trigger] RequestIdView::Number(n).key()[i] <= '9'
                ||| i == 0 && n < 0
            },
{
    if n >= 0 {
        law_decimal_is_read_back(n as nat);
    } else {
        let digits = crate::message::decimal((-n) as nat);
        law_decimal_is_read_back((-n) as nat);
        assert(RequestIdView::Number(n).key().skip(1) =~= digits);
    }
}

/// Different numbers are never looked up under one text.
pub proof fn law_numbers_are_told_apart(a: i64, b: i64)
    requires
        a != b,
    ensures
        RequestIdView::Number(a).key() != RequestIdView::Number(b).key(),
{
    law_lookup_key(Seq::empty(), a);
    law_lookup_key(Seq::empty(), b);
    if RequestIdView::Number(a).key() == RequestIdView::Number(b).key() {
        assert(RequestIdView::Number(a).key()[0] == RequestIdView::Number(b).key()[0]);
    }
}

/// Of a client's messages, responses and errors answer the request whose identifier they
/// have, and nothing else answers one.
pub proof fn law_client_answers(message: ClientMessageView)
    ensures
        match message {
            ClientMessageView::Response { id, .. } => message.answered_id() == Some(id),
            ClientMessageView::Error { id, .. } => message.answered_id() == Some(id),
            ClientMessageView::Request { .. } => message.answered_id() is None,
            ClientMessageView::Notification { .. } => message.answered_id() is None,
        },
{
}

/// Of a server's messages, responses and errors answer the request whose identifier they
/// have, and nothing else answers one.
pub proof fn law_server_answers(message: ServerMessageView)
    ensures
        match message {
            ServerMessageView::Response { id, .. } => message.answered_id() == Some(id),
            ServerMessageView::Error { id, .. } => message.answered_id() == Some(id),
            ServerMessageView::Request { .. } => message.answered_id() is None,
            ServerMessageView::Notification { .. } => message.answered_id() is None,
        },
{
}

/// A client's message with another identifier has the body that it had.
pub proof fn law_client_message_keeps_body(message: ClientMessageView, new_id: RequestIdView)
    ensures
        match message {
            ClientMessageView::Request { request, .. } => {
                message.with_id(new_id) == ClientMessageView::Request { id: new_id, request }
            },
            ClientMessageView::Response { result, .. } => {
                message.with_id(new_id) == ClientMessageView::Response { id: new_id, result }
            },
            ClientMessageView::Error { error, .. } => {
                message.with_id(new_id) == ClientMessageView::Error { id: new_id, error }
            },
            ClientMessageView::Notification { .. } => message.with_id(new_id) == message,
        },
{
}

/// A server's message with another identifier has the body that it had.
pub proof fn law_server_message_keeps_body(message: ServerMessageView, new_id: RequestIdView)
    ensures
        match message {
            ServerMessageView::Request { request, .. } => {
                message.with_id(new_id) == ServerMessageView::Request { id: new_id, request }
            },
            ServerMessageView::Response { result, .. } => {
                message.with_id(new_id) == ServerMessageView::Response { id: new_id, result }
            },
            ServerMessageView::Error { error, .. } => {
                message.with_id(new_id) == ServerMessageView::Error { id: new_id, error }
            },
            ServerMessageView::Notification { .. } => message.with_id(new_id) == message,
        },
{
}

} // verus!
