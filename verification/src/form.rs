//! The `application/x-www-form-urlencoded` grammar of a login form.
//!
//! A form body is a sequence of items separated by `&`.  Within one item a
//! single `=` separates the key from the value; a second `=` makes the body
//! malformed.  An item without `=` is a key with an empty value.  Keys and
//! values are url-decoded on demand: `+` stands for a space and `%hh` for the
//! octet with hexadecimal value `hh`; an incomplete escape is kept verbatim.

use vstd::prelude::*;

verus! {

/// The byte `=`, separating a key from its value inside one item.
pub const EQUALS_BYTE: u8 = 61;

/// The byte `&`, separating one item from the next.
pub const ITEM_SEP_BYTE: u8 = 38;

/// The byte `%`, starting a percent-encoded octet.
pub const PERCENT_BYTE: u8 = 37;

/// The byte `+`, which a form encodes a space as.
pub const PLUS_BYTE: u8 = 43;

/// The byte a decoded `+` stands for: a space.
pub const SPACE_BYTE: u8 = 32;

/// Whether `b` is an ASCII hexadecimal digit.
pub open spec fn is_hex_digit(b: u8) -> bool {
    (48 <= b && b <= 57) || (65 <= b && b <= 70) || (97 <= b && b <= 102)
}

/// The numeric value of the hexadecimal digit `b`.
pub open spec fn hex_digit_value(b: u8) -> u8
    recommends
        is_hex_digit(b),
{
    if 48 <= b && b <= 57 {
        (b - 48) as u8
    } else if 65 <= b && b <= 70 {
        (b - 65 + 10) as u8
    } else {
        (b - 97 + 10) as u8
    }
}

/// The url-decoding of `s`: `+` becomes a space, `%hh` with two hexadecimal
/// digits becomes the octet `hh`, and every other byte (including an
/// incomplete escape) is kept as it stands.
pub open spec fn url_decoded(s: Seq<u8>) -> Seq<u8>
    decreases s.len(),
{
    if s.len() == 0 {
        Seq::empty()
    } else if s[0] == PLUS_BYTE {
        seq![SPACE_BYTE] + url_decoded(s.skip(1))
    } else if s[0] == PERCENT_BYTE && s.len() >= 3 && is_hex_digit(s[1]) && is_hex_digit(s[2]) {
        seq![(hex_digit_value(s[1]) * 16 + hex_digit_value(s[2])) as u8] + url_decoded(s.skip(3))
    } else {
        seq![s[0]] + url_decoded(s.skip(1))
    }
}

/// A sequence without `+` or `%` decodes to itself.
pub proof fn lemma_url_decoded_plain(s: Seq<u8>)
    requires
        forall|i: int| 0 <= i < s.len() ==> s[i] != PLUS_BYTE && s[i] != PERCENT_BYTE,
    ensures
        url_decoded(s) == s,
    decreases s.len(),
{
    if s.len() == 0 {
        assert(url_decoded(s) =~= s);
    } else {
        lemma_url_decoded_plain(s.skip(1));
        assert(url_decoded(s) =~= s);
    }
}

/// If `b` is a hexadecimal digit, returns its value; otherwise `None`.
fn hex_value(b: u8) -> (r: Option<u8>)
    ensures
        match r {
            Some(v) => is_hex_digit(b) && v == hex_digit_value(b) && v <= 15,
            None => !is_hex_digit(b),
        },
{
    if 48 <= b && b <= 57 {
        Some(b - 48)
    } else if 65 <= b && b <= 70 {
        Some(b - 65 + 10)
    } else if 97 <= b && b <= 102 {
        Some(b - 97 + 10)
    } else {
        None
    }
}

/// Url-decodes `s`.
pub fn url_decode(s: &[u8]) -> (r: Vec<u8>)
    ensures
        r@ == url_decoded(s@),
{
    let mut out: Vec<u8> = Vec::new();
    let mut i: usize = 0;
    proof {
        assert(s@.skip(0) =~= s@);
        assert(out@ + url_decoded(s@) =~= url_decoded(s@));
    }
    while i < s.len()
        invariant
            i <= s.len(),
            url_decoded(s@) == out@ + url_decoded(s@.skip(i as int)),
        decreases s.len() - i,
    {
        let b = s[i];
        proof {
            assert(s@.skip(i as int)[0] == b);
            assert(s@.skip(i as int).len() == s@.len() - i);
        }
        if b == PLUS_BYTE {
            proof {
                assert(s@.skip(i as int).skip(1) =~= s@.skip(i as int + 1));
                assert(out@ + url_decoded(s@.skip(i as int)) =~= (out@ + seq![SPACE_BYTE])
                    + url_decoded(s@.skip(i as int + 1)));
                assert(out@ + seq![SPACE_BYTE] =~= out@.push(SPACE_BYTE));
            }
            out.push(SPACE_BYTE);
            i = i + 1;
        } else if b == PERCENT_BYTE && s.len() - i >= 3 {
            proof {
                assert(s@.skip(i as int)[1] == s@[i as int + 1]);
                assert(s@.skip(i as int)[2] == s@[i as int + 2]);
            }
            let h = hex_value(s[i + 1]);
            let l = hex_value(s[i + 2]);
            match (h, l) {
                (Some(hv), Some(lv)) => {
                    let decoded: u8 = hv * 16 + lv;
                    proof {
                        assert(s@.skip(i as int).skip(3) =~= s@.skip(i as int + 3));
                        assert(out@ + url_decoded(s@.skip(i as int)) =~= (out@ + seq![decoded])
                            + url_decoded(s@.skip(i as int + 3)));
                        assert(out@ + seq![decoded] =~= out@.push(decoded));
                    }
                    out.push(decoded);
                    i = i + 3;
                },
                _ => {
                    proof {
                        assert(s@.skip(i as int).skip(1) =~= s@.skip(i as int + 1));
                        assert(out@ + url_decoded(s@.skip(i as int)) =~= (out@ + seq![b])
                            + url_decoded(s@.skip(i as int + 1)));
                        assert(out@ + seq![b] =~= out@.push(b));
                    }
                    out.push(b);
                    i = i + 1;
                },
            }
        } else {
            proof {
                assert(s@.skip(i as int).skip(1) =~= s@.skip(i as int + 1));
                assert(out@ + url_decoded(s@.skip(i as int)) =~= (out@ + seq![b])
                    + url_decoded(s@.skip(i as int + 1)));
                assert(out@ + seq![b] =~= out@.push(b));
            }
            out.push(b);
            i = i + 1;
        }
    }
    proof {
        assert(s@.skip(i as int) =~= Seq::<u8>::empty());
        assert(out@ + url_decoded(s@.skip(i as int)) =~= out@);
    }
    out
}

/// One raw item of a form body: a key and a value, both still url-encoded.
#[derive(Debug)]
pub struct FormItem {
    /// The item's key, as it stands in the body.
    pub key: Vec<u8>,
    /// The item's value, as it stands in the body.
    pub value: Vec<u8>,
}

impl View for FormItem {
    type V = (Seq<u8>, Seq<u8>);

    open spec fn view(&self) -> (Seq<u8>, Seq<u8>) {
        (self.key@, self.value@)
    }
}

impl FormItem {
    /// Url-decodes the key and the value of this item.
    pub fn key_value_decoded(&self) -> (r: (Vec<u8>, Vec<u8>))
        ensures
            r.0@ == url_decoded(self.key@),
            r.1@ == url_decoded(self.value@),
    {
        (url_decode(self.key.as_slice()), url_decode(self.value.as_slice()))
    }
}

/// The views of a sequence of items.
pub open spec fn items_view(items: Seq<FormItem>) -> Seq<(Seq<u8>, Seq<u8>)> {
    items.map_values(|it: FormItem| it@)
}

/// Prepends the item `p` to a parse that may have failed.
pub open spec fn prepend_item(
    p: (Seq<u8>, Seq<u8>),
    rest: Option<Seq<(Seq<u8>, Seq<u8>)>>,
) -> Option<Seq<(Seq<u8>, Seq<u8>)>> {
    match rest {
        Some(r) => Some(seq![p] + r),
        None => None,
    }
}

/// Prepends already-parsed items to a parse of the remainder that may have
/// failed.
spec fn with_parsed_prefix(
    pre: Seq<(Seq<u8>, Seq<u8>)>,
    rest: Option<Seq<(Seq<u8>, Seq<u8>)>>,
) -> Option<Seq<(Seq<u8>, Seq<u8>)>> {
    match rest {
        Some(r) => Some(pre + r),
        None => None,
    }
}

/// Parses the remainder `s` of a form body.  `in_value` says whether the `=`
/// of the current item has been passed; `key` and `value` hold the bytes of
/// the current item read so far.  `None` means the body is malformed: a
/// second `=` stands inside one item.
pub open spec fn parse_cont(
    s: Seq<u8>,
    in_value: bool,
    key: Seq<u8>,
    value: Seq<u8>,
) -> Option<Seq<(Seq<u8>, Seq<u8>)>>
    decreases s.len(),
{
    if s.len() == 0 {
        if in_value || key.len() > 0 {
            Some(seq![(key, value)])
        } else {
            Some(Seq::empty())
        }
    } else {
        let b = s[0];
        let rest = s.skip(1);
        if b == ITEM_SEP_BYTE {
            prepend_item((key, value), parse_cont(rest, false, Seq::empty(), Seq::empty()))
        } else if b == EQUALS_BYTE {
            if in_value {
                None
            } else {
                parse_cont(rest, true, key, value)
            }
        } else {
            if in_value {
                parse_cont(rest, true, key, value.push(b))
            } else {
                parse_cont(rest, false, key.push(b), value)
            }
        }
    }
}

/// The items of the form body `s`, still url-encoded, or `None` where the
/// body is malformed.
pub open spec fn parse_form_spec(s: Seq<u8>) -> Option<Seq<(Seq<u8>, Seq<u8>)>> {
    parse_cont(s, false, Seq::empty(), Seq::empty())
}

proof fn lemma_parse_cont_plain(s: Seq<u8>, key: Seq<u8>)
    requires
        s.len() + key.len() > 0,
        forall|i: int| 0 <= i < s.len() ==> s[i] != EQUALS_BYTE && s[i] != ITEM_SEP_BYTE,
    ensures
        parse_cont(s, false, key, Seq::empty()) == Some(seq![(key + s, Seq::<u8>::empty())]),
    decreases s.len(),
{
    if s.len() == 0 {
        assert(key + s =~= key);
    } else {
        lemma_parse_cont_plain(s.skip(1), key.push(s[0]));
        assert(key.push(s[0]) + s.skip(1) =~= key + s);
    }
}

/// A non-empty body holding neither `=` nor `&` is well formed and is a
/// single item: the whole body as the key, with an empty value.
pub proof fn lemma_parse_plain_body(s: Seq<u8>)
    requires
        s.len() > 0,
        forall|i: int| 0 <= i < s.len() ==> s[i] != EQUALS_BYTE && s[i] != ITEM_SEP_BYTE,
    ensures
        parse_form_spec(s) == Some(seq![(s, Seq::<u8>::empty())]),
{
    lemma_parse_cont_plain(s, Seq::empty());
    assert(Seq::<u8>::empty() + s =~= s);
}

/// Splits the form body `s` into its raw items.  Returns `None` exactly where
/// the body is malformed.
pub fn parse_form(s: &[u8]) -> (r: Option<Vec<FormItem>>)
    ensures
        (r is Some) == (parse_form_spec(s@) is Some),
        r matches Some(items) ==> parse_form_spec(s@) == Some(items_view(items@)),
{
    let mut items: Vec<FormItem> = Vec::new();
    let mut key: Vec<u8> = Vec::new();
    let mut value: Vec<u8> = Vec::new();
    let mut in_value: bool = false;
    let mut i: usize = 0;
    proof {
        assert(s@.skip(0) =~= s@);
        assert(items_view(items@) =~= Seq::<(Seq<u8>, Seq<u8>)>::empty());
        match parse_form_spec(s@) {
            Some(r) => {
                assert(items_view(items@) + r =~= r);
            },
            None => {},
        }
    }
    while i < s.len()
        invariant
            i <= s.len(),
            parse_form_spec(s@) == with_parsed_prefix(
                items_view(items@),
                parse_cont(s@.skip(i as int), in_value, key@, value@),
            ),
            !in_value ==> value@.len() == 0,
        decreases s.len() - i,
    {
        let b = s[i];
        proof {
            assert(s@.skip(i as int)[0] == b);
            assert(s@.skip(i as int).len() == s@.len() - i);
            assert(s@.skip(i as int).skip(1) =~= s@.skip(i as int + 1));
        }
        if b == ITEM_SEP_BYTE {
            let ghost prev_items = items@;
            let ghost item_view = (key@, value@);
            let done = FormItem { key, value };
            proof {
                assert(done@ == item_view);
            }
            items.push(done);
            key = Vec::new();
            value = Vec::new();
            in_value = false;
            i = i + 1;
            proof {
                assert(items_view(items@) =~= items_view(prev_items).push(item_view));
                match parse_cont(s@.skip(i as int), false, Seq::empty(), Seq::empty()) {
                    Some(r) => {
                        assert(items_view(prev_items) + (seq![item_view] + r) =~= items_view(
                            items@,
                        ) + r);
                    },
                    None => {},
                }
            }
        } else if b == EQUALS_BYTE {
            if in_value {
                proof {
                    assert(parse_cont(s@.skip(i as int), in_value, key@, value@) is None);
                }
                return None;
            }
            in_value = true;
            i = i + 1;
        } else {
            if in_value {
                value.push(b);
            } else {
                key.push(b);
            }
            i = i + 1;
        }
    }
    proof {
        assert(s@.skip(i as int) =~= Seq::<u8>::empty());
    }
    if in_value || key.len() > 0 {
        let ghost prev_items = items@;
        let ghost item_view = (key@, value@);
        let done = FormItem { key, value };
        items.push(done);
        proof {
            assert(items_view(items@) =~= items_view(prev_items).push(item_view));
            assert(items_view(prev_items) + seq![item_view] =~= items_view(items@));
        }
    } else {
        proof {
            assert(items_view(items@) + Seq::<(Seq<u8>, Seq<u8>)>::empty() =~= items_view(
                items@,
            ));
        }
    }
    Some(items)
}

} // verus!
