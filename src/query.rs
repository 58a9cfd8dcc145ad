//! Query parameters and their serialization as `application/x-www-form-urlencoded` text.
use vstd::prelude::*;

verus! {

/// What `form_urlencoded::byte_serialize` makes of the UTF-8 bytes of a string.
pub uninterp spec fn form_encoded(s: Seq<char>) -> Seq<char>;

/// A byte that the form encoding writes out as it is.
pub open spec fn is_form_unreserved(c: char) -> bool {
    ('0' <= c && c <= '9') || ('A' <= c && c <= 'Z') || ('a' <= c && c <= 'z') || c == '*' || c
        == '-' || c == '.' || c == '_'
}

/// A character that can stand in form-encoded text: an unreserved byte, `+` for a space, or
/// `%` with hexadecimal digits for any other byte.
pub open spec fn is_form_output(c: char) -> bool {
    is_form_unreserved(c) || c == '+' || c == '%'
}

/// Relies on `form_urlencoded::byte_serialize`, which keeps ASCII alphanumerics and `*-._`,
/// writes a space as `+` and every other byte as `%` and two hexadecimal digits.
#[verifier::external_body]
fn form_encode(s: &str) -> (r: String)
    ensures
        r@ == form_encoded(s@),
        forall|i: int| 0 <= i < r@.len() ==> is_form_output(#[trigger] r@[i]),
        (forall|i: int| 0 <= i < s@.len() ==> is_form_unreserved(#[trigger] s@[i])) ==> r@ == s@,
{
    form_urlencoded::byte_serialize(s.as_bytes()).collect()
}

/// The text of each pair of strings.
pub open spec fn pair_texts(pairs: Seq<(String, String)>) -> Seq<(Seq<char>, Seq<char>)> {
    pairs.map_values(|p: (String, String)| (p.0@, p.1@))
}

/// Each name and value as form-encoded text.
pub open spec fn encoded_pairs(pairs: Seq<(String, String)>) -> Seq<(Seq<char>, Seq<char>)> {
    pairs.map_values(|p: (String, String)| (form_encoded(p.0@), form_encoded(p.1@)))
}

/// Pairs joined as `k1=v1&k2=v2...`, in their order, written as they are.
pub open spec fn joined(pairs: Seq<(Seq<char>, Seq<char>)>) -> Seq<char>
    decreases pairs.len(),
{
    if pairs.len() == 0 {
        Seq::empty()
    } else if pairs.len() == 1 {
        pairs[0].0 + seq!['='] + pairs[0].1
    } else {
        joined(pairs.drop_last()) + seq!['&'] + pairs.last().0 + seq!['='] + pairs.last().1
    }
}

/// The query string of a list of parameters: every name and value form-encoded, then joined.
pub open spec fn query_string(pairs: Seq<(String, String)>) -> Seq<char> {
    joined(encoded_pairs(pairs))
}

/// Joins pairs that are already encoded as `k1=v1&k2=v2...`; empty when there are none.
pub fn join_pairs(pairs: &Vec<(String, String)>) -> (r: String)
    ensures
        r@ == joined(pair_texts(pairs@)),
{
    let mut out = String::new();
    let mut i: usize = 0;
    while i < pairs.len()
        invariant
            0 <= i <= pairs@.len(),
            out@ == joined(pair_texts(pairs@.subrange(0, i as int))),
        decreases pairs@.len() - i,
    {
        let ghost pre = pair_texts(pairs@.subrange(0, i as int));
        let ghost next = pair_texts(pairs@.subrange(0, i + 1));
        assert(next.drop_last() =~= pre);
        assert(next.last() == (pairs@[i as int].0@, pairs@[i as int].1@));
        if i > 0 {
            out.append("&");
        }
        out.append(pairs[i].0.as_str());
        out.append("=");
        out.append(pairs[i].1.as_str());
        proof {
            reveal_strlit("&");
            reveal_strlit("=");
            if i == 0 {
                assert(next.len() == 1);
                assert(out@ =~= next[0].0 + seq!['='] + next[0].1);
            } else {
                assert(out@ =~= joined(pre) + seq!['&'] + next.last().0 + seq!['='] + next.last().1);
            }
        }
        i = i + 1;
    }
    assert(pairs@.subrange(0, pairs@.len() as int) =~= pairs@);
    out
}

/// Text that the form encoding leaves as it is.
pub open spec fn is_unreserved_text(s: Seq<char>) -> bool {
    forall|i: int| 0 <= i < s.len() ==> is_form_unreserved(#[trigger] s[i])
}

/// Every name and value is text that the form encoding leaves as it is.
pub open spec fn all_unreserved(pairs: Seq<(String, String)>) -> bool {
    forall|k: int|
        0 <= k < pairs.len() ==> is_unreserved_text((#[trigger] pairs[k]).0@)
            && is_unreserved_text(pairs[k].1@)
}

/// A character that can stand in a query string: form-encoded text, or one of the separators.
pub open spec fn is_query_char(c: char) -> bool {
    is_form_output(c) || c == '&' || c == '='
}

/// Pairs of form-encoded text join into a query string: no `?` or `#` can appear in it.
proof fn lemma_joined_is_query_text(pairs: Seq<(Seq<char>, Seq<char>)>)
    requires
        forall|k: int, i: int|
            0 <= k < pairs.len() && 0 <= i < pairs[k].0.len() ==> is_form_output(
                #[trigger] pairs[k].0[i],
            ),
        forall|k: int, i: int|
            0 <= k < pairs.len() && 0 <= i < pairs[k].1.len() ==> is_form_output(
                #[trigger] pairs[k].1[i],
            ),
    ensures
        forall|i: int| 0 <= i < joined(pairs).len() ==> is_query_char(#[trigger] joined(pairs)[i]),
    decreases pairs.len(),
{
    if pairs.len() == 0 {
    } else {
        let last = pairs[pairs.len() - 1];
        assert(forall|i: int| 0 <= i < last.0.len() ==> is_form_output(#[trigger] last.0[i]));
        assert(forall|i: int| 0 <= i < last.1.len() ==> is_form_output(#[trigger] last.1[i]));
        let tail = last.0 + seq!['='] + last.1;
        assert forall|i: int| 0 <= i < tail.len() implies is_query_char(#[trigger] tail[i]) by {
            if i < last.0.len() {
            } else if i == last.0.len() {
            } else {
                assert(tail[i] == last.1[i - last.0.len() - 1]);
            }
        }
        if pairs.len() == 1 {
            assert(joined(pairs) == tail);
        } else {
            let init = pairs.drop_last();
            lemma_joined_is_query_text(init);
            let head = joined(init);
            assert(joined(pairs) =~= head + seq!['&'] + tail);
            assert forall|i: int| 0 <= i < joined(pairs).len() implies is_query_char(
                #[trigger] joined(pairs)[i],
            ) by {
                if i < head.len() {
                    assert(joined(pairs)[i] == head[i]);
                } else if i == head.len() {
                } else {
                    assert(joined(pairs)[i] == tail[i - head.len() - 1]);
                }
            }
        }
    }
}

/// Query parameters in the order they were given. A name may occur more than once.
pub struct QueryMap {
    pub pairs: Vec<(String, String)>,
}

impl QueryMap {
    /// No parameters.
    pub fn new() -> (r: QueryMap)
        ensures
            r.pairs@.len() == 0,
    {
        QueryMap { pairs: Vec::new() }
    }

    /// Adds `key=value` after the existing parameters.
    pub fn insert(&mut self, key: &str, value: &str)
        ensures
            final(self).pairs@.len() == old(self).pairs@.len() + 1,
            final(self).pairs@.drop_last() == old(self).pairs@,
            final(self).pairs@.last().0@ == key@,
            final(self).pairs@.last().1@ == value@,
    {
        self.pairs.push((String::from_str(key), String::from_str(value)));
        assert(self.pairs@.drop_last() =~= old(self).pairs@);
    }

    /// Whether there are no parameters.
    pub fn is_empty(&self) -> (r: bool)
        ensures
            r == (self.pairs@.len() == 0),
    {
        self.pairs.len() == 0
    }

    /// The parameters as form-encoded text, `k1=v1&k2=v2...`; empty when there are none.
    pub fn to_query_string(&self) -> (r: String)
        ensures
            r@ == query_string(self.pairs@),
            forall|i: int| 0 <= i < r@.len() ==> is_query_char(#[trigger] r@[i]),
            all_unreserved(self.pairs@) ==> r@ == joined(pair_texts(self.pairs@)),
    {
        let mut encoded: Vec<(String, String)> = Vec::new();
        let mut i: usize = 0;
        while i < self.pairs.len()
            invariant
                0 <= i <= self.pairs@.len(),
                pair_texts(encoded@) == encoded_pairs(self.pairs@.subrange(0, i as int)),
                encoded@.len() == i,
                forall|k: int|
                    0 <= k < i && is_unreserved_text(self.pairs@[k].0@) ==> (#[trigger] encoded@[k]).0@
                        == self.pairs@[k].0@,
                forall|k: int|
                    0 <= k < i && is_unreserved_text(self.pairs@[k].1@) ==> (#[trigger] encoded@[k]).1@
                        == self.pairs@[k].1@,
                forall|k: int, j: int|
                    0 <= k < encoded@.len() && 0 <= j < encoded@[k].0@.len() ==> is_form_output(
                        #[trigger] encoded@[k].0@[j],
                    ),
                forall|k: int, j: int|
                    0 <= k < encoded@.len() && 0 <= j < encoded@[k].1@.len() ==> is_form_output(
                        #[trigger] encoded@[k].1@[j],
                    ),
            decreases self.pairs@.len() - i,
        {
            let k = form_encode(self.pairs[i].0.as_str());
            let v = form_encode(self.pairs[i].1.as_str());
            let ghost before = encoded@;
            encoded.push((k, v));
            assert(encoded@ =~= before.push((k, v)));
            proof {
                let sub = self.pairs@.subrange(0, i as int);
                let sub1 = self.pairs@.subrange(0, i + 1);
                assert(pair_texts(before).len() == sub.len());
                assert(before.len() == i);
                assert forall|j: int| 0 <= j <= i implies #[trigger] pair_texts(encoded@)[j]
                    == encoded_pairs(sub1)[j] by {
                    if j < i {
                        assert(pair_texts(before)[j] == encoded_pairs(sub)[j]);
                        assert(encoded@[j] == before[j]);
                        assert(sub1[j] == sub[j]);
                    } else {
                        assert(encoded@[j] == (k, v));
                        assert(sub1[j] == self.pairs@[i as int]);
                    }
                }
                assert(pair_texts(encoded@) =~= encoded_pairs(sub1));
            }
            i = i + 1;
        }
        assert(self.pairs@.subrange(0, self.pairs@.len() as int) =~= self.pairs@);
        proof {
            let texts = pair_texts(encoded@);
            assert forall|k: int, j: int| 0 <= k < texts.len() && 0 <= j < texts[k].0.len()
                implies is_form_output(#[trigger] texts[k].0[j]) by {
                assert(texts[k].0 == encoded@[k].0@);
            }
            assert forall|k: int, j: int| 0 <= k < texts.len() && 0 <= j < texts[k].1.len()
                implies is_form_output(#[trigger] texts[k].1[j]) by {
                assert(texts[k].1 == encoded@[k].1@);
            }
            lemma_joined_is_query_text(texts);
            if all_unreserved(self.pairs@) {
                assert forall|k: int| 0 <= k < texts.len() implies #[trigger] texts[k] == pair_texts(
                    self.pairs@,
                )[k] by {
                    assert(is_unreserved_text(self.pairs@[k].0@));
                    assert(is_unreserved_text(self.pairs@[k].1@));
                }
                assert(texts =~= pair_texts(self.pairs@));
            }
        }
        join_pairs(&encoded)
    }
}

} // verus!
