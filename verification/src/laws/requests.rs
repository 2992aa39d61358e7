//! The texts that are sent.

use vstd::prelude::*;

use crate::auth::CredentialsView;
use crate::json::{escaped, escaped_char, quoted};
use crate::messages::{json_strings, market_request, request_json, user_request, RequestView};

verus! {

/// What requests for market data and for user events say.
pub proof fn law_requests(ids: Seq<Seq<char>>, auth: CredentialsView)
    ensures
        market_request(ids).kind == "market"@,
        market_request(ids).assets_ids == ids,
        market_request(ids).markets == Seq::<Seq<char>>::empty(),
        market_request(ids).initial_dump == Some(true),
        market_request(ids).auth is None,
        user_request(ids, auth).kind == "user"@,
        user_request(ids, auth).markets == ids,
        user_request(ids, auth).assets_ids == Seq::<Seq<char>>::empty(),
        user_request(ids, auth).initial_dump == Some(true),
        user_request(ids, auth).auth == Some(auth),
{
}

/// How characters stand inside a JSON string.
pub proof fn law_escapes(c: char)
    ensures
        escaped_char('"') == seq!['\\', '"'],
        escaped_char('\\') == seq!['\\', '\\'],
        escaped_char('\n') == seq!['\\', 'n'],
        escaped_char('\r') == seq!['\\', 'r'],
        escaped_char('\t') == seq!['\\', 't'],
        escaped_char('\u{8}') == seq!['\\', 'b'],
        escaped_char('\u{c}') == seq!['\\', 'f'],
        escaped_char('\u{0}') == seq!['\\', 'u', '0', '0', '0', '0'],
        escaped_char('\u{1f}') == seq!['\\', 'u', '0', '0', '1', 'f'],
        c as u32 >= 0x20 && c != '"' && c != '\\' ==> escaped_char(c) == seq![c],
{
    assert('\u{1f}' as int / 16 == 1);
    assert('\u{1f}' as int % 16 == 15);
}

/// A JSON string is the escaped characters of a text, in order, between quotes.
pub proof fn law_quotes(text: Seq<char>, more: Seq<char>, c: char)
    ensures
        quoted(text) == seq!['"'] + escaped(text) + seq!['"'],
        escaped(Seq::<char>::empty()) == Seq::<char>::empty(),
        escaped(seq![c]) == escaped_char(c),
        escaped(text + more) == escaped(text) + escaped(more),
        (forall|i: int|
            0 <= i < text.len() ==> (#[trigger] text[i]) as u32 >= 0x20 && text[i] != '"' && text[i]
                != '\\') ==> escaped(text) == text,
    decreases text.len() + more.len(),
{
    assert(seq![c].drop_last() =~= Seq::<char>::empty());
    assert(escaped(seq![c]) == escaped(Seq::<char>::empty()) + escaped_char(c));
    if more.len() > 0 {
        assert((text + more).drop_last() =~= text + more.drop_last());
        law_quotes(text, more.drop_last(), c);
        assert(escaped(text) + escaped(more.drop_last()) + escaped_char(more.last()) =~= escaped(
            text,
        ) + (escaped(more.drop_last()) + escaped_char(more.last())));
    } else {
        assert(text + more =~= text);
        if text.len() > 0 {
            let rest = text.drop_last();
            law_quotes(rest, more, c);
            assert forall|i: int| 0 <= i < rest.len() implies (#[trigger] rest[i]) == text[i] by {}
            assert(text =~= rest + seq![text.last()]);
            law_escapes(text.last());
        }
    }
}

/// Strings in a JSON array stand one after the other, with a comma between
/// neighbours and nowhere else.
pub proof fn law_strings_of_an_array(a: Seq<Seq<char>>, b: Seq<Seq<char>>, item: Seq<char>)
    ensures
        json_strings(Seq::<Seq<char>>::empty()) == Seq::<char>::empty(),
        json_strings(seq![item]) == quoted(item),
        a.len() > 0 && b.len() > 0 ==> json_strings(a + b) == json_strings(a) + ","@ + json_strings(
            b,
        ),
    decreases b.len(),
{
    if a.len() > 0 && b.len() > 0 {
        let all = a + b;
        assert(all.drop_last() =~= a + b.drop_last());
        assert(all.last() == b.last());
        if b.len() == 1 {
            assert(a + b.drop_last() =~= a);
            assert(json_strings(b) == quoted(b[0]));
        } else {
            law_strings_of_an_array(a, b.drop_last(), item);
            assert(json_strings(a) + ","@ + json_strings(b.drop_last()) + ","@ + quoted(b.last())
                =~= json_strings(a) + ","@ + (json_strings(b.drop_last()) + ","@ + quoted(
                b.last(),
            )));
        }
    }
}

/// The members of a request, in order: its type, its markets, its assets,
/// whether the initial state is asked for, and the credentials with key, secret
/// and passphrase. The last two are left out where they are absent.
pub proof fn law_text_of_a_request(request: RequestView)
    ensures
        ({
            let lists = "{\"type\":"@ + quoted(request.kind) + ",\"markets\":["@ + json_strings(
                request.markets,
            ) + "],\"assets_ids\":["@ + json_strings(request.assets_ids) + "]"@;
            let dump = if request.initial_dump is None {
                Seq::empty()
            } else if request.initial_dump->0 {
                ",\"initial_dump\":true"@
            } else {
                ",\"initial_dump\":false"@
            };
            let auth = if request.auth is None {
                Seq::empty()
            } else {
                ",\"auth\":"@ + ("{\"apiKey\":"@ + quoted(request.auth->0.key) + ",\"secret\":"@
                    + quoted(request.auth->0.secret) + ",\"passphrase\":"@ + quoted(
                    request.auth->0.passphrase,
                ) + "}"@)
            };
            request_json(request) == lists + dump + auth + "}"@
        }),
{
}

} // verus!
