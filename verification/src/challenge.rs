//! The challenge by which a registry names its token service:
//! `Bearer realm="R",service="S"`.

use crate::text::to_chars;
use vstd::prelude::*;
use vstd::string::StrSliceExecFns;

verus! {

/// Where to ask for a token, and for which service.
#[derive(Debug, PartialEq, Eq)]
pub struct BearerChallenge {
    pub realm: String,
    pub service: String,
}

/// A challenge as a plain value.
pub ghost struct BearerChallengeView {
    pub realm: Seq<char>,
    pub service: Seq<char>,
}

impl View for BearerChallenge {
    type V = BearerChallengeView;

    open spec fn view(&self) -> BearerChallengeView {
        BearerChallengeView { realm: self.realm@, service: self.service@ }
    }
}

impl DeepView for BearerChallenge {
    type V = BearerChallengeView;

    open spec fn deep_view(&self) -> BearerChallengeView {
        self@
    }
}

/// The text before the realm: `Bearer realm="`.
pub open spec fn realm_opening() -> Seq<char> {
    seq!['B', 'e', 'a', 'r', 'e', 'r', ' ', 'r', 'e', 'a', 'l', 'm', '=', '"']
}

/// The text between the realm and the service: `",service="`.
pub open spec fn service_opening() -> Seq<char> {
    seq!['"', ',', 's', 'e', 'r', 'v', 'i', 'c', 'e', '=', '"']
}

/// `pattern` stands in `s` at `at`.
pub open spec fn occurs_at(s: Seq<char>, at: int, pattern: Seq<char>) -> bool {
    &&& 0 <= at
    &&& at + pattern.len() <= s.len()
    &&& s.subrange(at, at + pattern.len()) == pattern
}

/// The position of the first quotation mark at or after `from`, or the
/// length of `s` where there is none.
pub open spec fn next_quote(s: Seq<char>, from: int) -> int
    decreases s.len() - from,
{
    if from < 0 || from >= s.len() {
        s.len() as int
    } else if s[from] == '"' {
        from
    } else {
        next_quote(s, from + 1)
    }
}

/// The challenge that `s` holds from `start` on: the opening of the realm,
/// a realm of one character or more up to the next quotation mark, the
/// opening of the service, and a service of one character or more up to a
/// closing quotation mark.
pub open spec fn challenge_at(s: Seq<char>, start: int) -> Option<BearerChallengeView> {
    let realm_start = start + realm_opening().len();
    let realm_end = next_quote(s, realm_start);
    let service_start = realm_end + service_opening().len();
    let service_end = next_quote(s, service_start);
    if occurs_at(s, start, realm_opening()) && realm_start < realm_end && occurs_at(
        s,
        realm_end,
        service_opening(),
    ) && service_start < service_end && service_end < s.len() {
        Some(
            BearerChallengeView {
                realm: s.subrange(realm_start, realm_end),
                service: s.subrange(service_start, service_end),
            },
        )
    } else {
        None
    }
}

/// The first challenge that `s` holds at or after `from`.
pub open spec fn challenge_from(s: Seq<char>, from: int) -> Option<BearerChallengeView>
    decreases s.len() - from,
{
    if from < 0 || from >= s.len() {
        None
    } else if challenge_at(s, from) is Some {
        challenge_at(s, from)
    } else {
        challenge_from(s, from + 1)
    }
}

/// The challenge of a header value: the first one that it holds, wherever
/// it begins.
pub open spec fn challenge_of(s: Seq<char>) -> Option<BearerChallengeView> {
    challenge_from(s, 0)
}

/// The challenge `c`, written out: the opening of the realm, the realm,
/// the opening of the service, the service and the closing quotation mark.
pub open spec fn challenge_text(c: BearerChallengeView) -> Seq<char> {
    realm_opening() + c.realm + service_opening() + c.service + seq!['"']
}

/// No character of `s` is a quotation mark.
pub open spec fn quote_free(s: Seq<char>) -> bool {
    forall|i: int| 0 <= i < s.len() ==> #[trigger] s[i] != '"'
}

/// From `from` up to the next quotation mark there is none.
pub proof fn lemma_next_quote(s: Seq<char>, from: int)
    requires
        0 <= from <= s.len(),
    ensures
        from <= next_quote(s, from) <= s.len(),
        quote_free(s.subrange(from, next_quote(s, from))),
        next_quote(s, from) < s.len() ==> s[next_quote(s, from)] == '"',
    decreases s.len() - from,
{
    if from < s.len() && s[from] != '"' {
        lemma_next_quote(s, from + 1);
        let end = next_quote(s, from);
        assert forall|i: int| 0 <= i < s.subrange(from, end).len() implies #[trigger] s.subrange(
            from,
            end,
        )[i] != '"' by {
            if i > 0 {
                assert(s.subrange(from + 1, end)[i - 1] == s.subrange(from, end)[i]);
            }
        }
    }
}

/// A challenge that is read at `start` stands there written out, and its
/// realm and its service are not empty and hold no quotation mark.
pub proof fn lemma_challenge_at(s: Seq<char>, start: int)
    requires
        challenge_at(s, start) is Some,
    ensures
        occurs_at(s, start, challenge_text(challenge_at(s, start)->0)),
        challenge_at(s, start)->0.realm.len() > 0,
        challenge_at(s, start)->0.service.len() > 0,
        quote_free(challenge_at(s, start)->0.realm),
        quote_free(challenge_at(s, start)->0.service),
{
    let c = challenge_at(s, start)->0;
    let realm_start = start + realm_opening().len();
    let realm_end = next_quote(s, realm_start);
    let service_start = realm_end + service_opening().len();
    let service_end = next_quote(s, service_start);
    lemma_next_quote(s, realm_start);
    lemma_next_quote(s, service_start);
    let text = challenge_text(c);
    assert(text.len() == service_end + 1 - start);
    assert forall|i: int| 0 <= i < text.len() implies s.subrange(start, start + text.len())[i]
        == text[i] by {
        if i < realm_opening().len() {
            assert(s.subrange(start, start + realm_opening().len())[i] == realm_opening()[i]);
        } else if start + i < realm_end {
        } else if start + i < service_start {
            assert(s.subrange(realm_end, realm_end + service_opening().len())[start + i
                - realm_end] == service_opening()[start + i - realm_end]);
        } else if start + i < service_end {
        } else {
        }
    }
    assert(s.subrange(start, start + text.len()) =~= text);
}

/// Where no quotation mark stands from `from` up to `end`, and one stands at
/// `end`, the next quotation mark from `from` is the one at `end`.
pub proof fn lemma_next_quote_is(s: Seq<char>, from: int, end: int)
    requires
        0 <= from <= end < s.len(),
        forall|i: int| from <= i < end ==> s[i] != '"',
        s[end] == '"',
    ensures
        next_quote(s, from) == end,
    decreases end - from,
{
    if from < end {
        lemma_next_quote_is(s, from + 1, end);
    }
}

/// A challenge that stands written out at `start`, with a realm and a
/// service that are not empty and hold no quotation mark, is read there as
/// it stands.
pub proof fn lemma_challenge_read_back(s: Seq<char>, start: int, c: BearerChallengeView)
    requires
        occurs_at(s, start, challenge_text(c)),
        c.realm.len() > 0,
        c.service.len() > 0,
        quote_free(c.realm),
        quote_free(c.service),
    ensures
        challenge_at(s, start) == Some(c),
{
    let text = challenge_text(c);
    let realm_start = start + realm_opening().len();
    let realm_end = realm_start + c.realm.len();
    let service_start = realm_end + service_opening().len();
    let service_end = service_start + c.service.len();
    assert(text.len() == service_end + 1 - start);
    assert forall|i: int| 0 <= i < text.len() implies s[start + i] == text[i] by {
        assert(s.subrange(start, start + text.len())[i] == s[start + i]);
    }
    assert forall|i: int| realm_start <= i < realm_end implies s[i] != '"' by {
        assert(s[i] == text[i - start]);
        assert(text[i - start] == c.realm[i - realm_start]);
    }
    assert(s[realm_end] == '"') by {
        assert(s[realm_end] == text[realm_end - start]);
        assert(text[realm_end - start] == service_opening()[0]);
    }
    lemma_next_quote_is(s, realm_start, realm_end);
    assert forall|i: int| service_start <= i < service_end implies s[i] != '"' by {
        assert(s[i] == text[i - start]);
        assert(text[i - start] == c.service[i - service_start]);
    }
    assert(s[service_end] == '"') by {
        assert(s[service_end] == text[service_end - start]);
    }
    lemma_next_quote_is(s, service_start, service_end);
    assert(s.subrange(start, realm_start) =~= realm_opening()) by {
        assert forall|i: int| 0 <= i < realm_opening().len() implies s.subrange(
            start,
            realm_start,
        )[i] == realm_opening()[i] by {
            assert(s[start + i] == text[i]);
        }
    }
    assert(s.subrange(realm_end, service_start) =~= service_opening()) by {
        assert forall|i: int| 0 <= i < service_opening().len() implies s.subrange(
            realm_end,
            service_start,
        )[i] == service_opening()[i] by {
            assert(s[realm_end + i] == text[realm_end + i - start]);
        }
    }
    assert(s.subrange(realm_start, realm_end) =~= c.realm) by {
        assert forall|i: int| 0 <= i < c.realm.len() implies s.subrange(realm_start, realm_end)[i]
            == c.realm[i] by {
            assert(s[realm_start + i] == text[realm_start + i - start]);
        }
    }
    assert(s.subrange(service_start, service_end) =~= c.service) by {
        assert forall|i: int| 0 <= i < c.service.len() implies s.subrange(
            service_start,
            service_end,
        )[i] == c.service[i] by {
            assert(s[service_start + i] == text[service_start + i - start]);
        }
    }
}

/// The challenge of a text is one that the text holds: it stands in the
/// text written out, and at no earlier place does a challenge begin.
pub proof fn lemma_challenge_of(s: Seq<char>, from: int)
    requires
        0 <= from,
        challenge_from(s, from) is Some,
    ensures
        exists|start: int|
            from <= start < s.len() && #[trigger] challenge_at(s, start) == challenge_from(s, from)
                && occurs_at(s, start, challenge_text(challenge_from(s, from)->0)) && forall|
                earlier: int,
            | from <= earlier < start ==> #[trigger] challenge_at(s, earlier) is None,
    decreases s.len() - from,
{
    if challenge_at(s, from) is Some {
        lemma_challenge_at(s, from);
    } else {
        lemma_challenge_of(s, from + 1);
        let start = choose|start: int|
            from + 1 <= start < s.len() && #[trigger] challenge_at(s, start) == challenge_from(
                s,
                from + 1,
            ) && occurs_at(s, start, challenge_text(challenge_from(s, from + 1)->0)) && forall|
                earlier: int,
            | from + 1 <= earlier < start ==> #[trigger] challenge_at(s, earlier) is None;
        assert forall|earlier: int| from <= earlier < start implies #[trigger] challenge_at(
            s,
            earlier,
        ) is None by {}
    }
}

fn find_quote(s: &Vec<char>, from: usize) -> (res: usize)
    ensures
        res == next_quote(s@, from as int),
        from <= s.len() ==> from <= res <= s.len(),
        from > s.len() ==> res == s.len(),
{
    if from >= s.len() {
        return s.len();
    }
    let mut i: usize = from;
    while i < s.len()
        invariant
            from <= i <= s.len(),
            next_quote(s@, from as int) == next_quote(s@, i as int),
        decreases s.len() - i,
    {
        if s[i] == '"' {
            return i;
        }
        i = i + 1;
    }
    i
}

fn stands_at(s: &Vec<char>, at: usize, pattern: &Vec<char>) -> (res: bool)
    ensures
        res == occurs_at(s@, at as int, pattern@),
{
    if pattern.len() > s.len() || at > s.len() - pattern.len() {
        return false;
    }
    let mut i: usize = 0;
    while i < pattern.len()
        invariant
            i <= pattern.len(),
            at + pattern.len() <= s.len(),
            forall|j: int| 0 <= j < i ==> s@[at + j] == pattern@[j],
        decreases pattern.len() - i,
    {
        if s[at + i] != pattern[i] {
            assert(s@.subrange(at as int, at + pattern.len())[i as int] == s@[at + i]);
            return false;
        }
        i = i + 1;
    }
    assert(s@.subrange(at as int, at + pattern.len()) =~= pattern@);
    true
}

/// Reads the challenge of a `WWW-Authenticate` header value.
pub fn parse_challenge(header: &str) -> (res: Option<BearerChallenge>)
    ensures
        res.deep_view() == challenge_of(header@),
{
    let s = to_chars(header);
    let realm_open = to_chars("Bearer realm=\"");
    let service_open = to_chars("\",service=\"");
    proof {
        reveal_strlit("Bearer realm=\"");
        reveal_strlit("\",service=\"");
        assert(realm_open@ =~= realm_opening());
        assert(service_open@ =~= service_opening());
    }
    let mut start: usize = 0;
    while start < s.len()
        invariant
            start <= s.len(),
            s@ == header@,
            realm_open@ == realm_opening(),
            service_open@ == service_opening(),
            challenge_of(s@) == challenge_from(s@, start as int),
        decreases s.len() - start,
    {
        if stands_at(&s, start, &realm_open) {
            let realm_start = start + realm_open.len();
            let realm_end = find_quote(&s, realm_start);
            if realm_start < realm_end && stands_at(&s, realm_end, &service_open) {
                let service_start = realm_end + service_open.len();
                let service_end = find_quote(&s, service_start);
                if service_start < service_end && service_end < s.len() {
                    let realm = header.substring_char(realm_start, realm_end).to_owned();
                    let service = header.substring_char(service_start, service_end).to_owned();
                    return Some(BearerChallenge { realm, service });
                }
            }
        }
        start = start + 1;
    }
    None
}

} // verus!
