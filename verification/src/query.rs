//! Query strings: which optional parameters are sent, and how the ones that
//! are sent appear after the `?` of a URL.

use vstd::prelude::*;
use vstd::string::*;
use vstd::utf8::*;
use crate::encode::{escaped_byte, hex_value};

verus! {

/// A name and a value, as sequences of characters.
pub type Pair = (Seq<char>, Seq<char>);

/// The bytes that `application/x-www-form-urlencoded` leaves as they are:
/// ASCII letters, digits, and `*`, `-`, `.`, `_`.
pub open spec fn is_form_plain(b: u8) -> bool {
    ||| 0x41 <= b <= 0x5A
    ||| 0x61 <= b <= 0x7A
    ||| 0x30 <= b <= 0x39
    ||| b == 0x2A
    ||| b == 0x2D
    ||| b == 0x2E
    ||| b == 0x5F
}

/// What one byte of a name or a value becomes: itself, `+` for a space, or
/// its percent escape.
pub open spec fn form_byte(b: u8) -> Seq<char> {
    if is_form_plain(b) {
        seq![b as char]
    } else if b == 0x20 {
        seq!['+']
    } else {
        escaped_byte(b)
    }
}

/// The form encoding of a byte string, byte by byte.
pub open spec fn form_bytes(bytes: Seq<u8>) -> Seq<char>
    decreases bytes.len(),
{
    if bytes.len() == 0 {
        Seq::empty()
    } else {
        form_bytes(bytes.drop_last()) + form_byte(bytes.last())
    }
}

/// One pair in a query string: the encoded name, `=`, the encoded value.
pub open spec fn form_pair(pair: Pair) -> Seq<char> {
    form_bytes(encode_utf8(pair.0)) + seq!['='] + form_bytes(encode_utf8(pair.1))
}

/// The query string for a list of pairs: the encoded pairs in order, with
/// `&` between neighbours.
pub open spec fn form_urlencoded(pairs: Seq<Pair>) -> Seq<char>
    decreases pairs.len(),
{
    if pairs.len() == 0 {
        Seq::empty()
    } else if pairs.len() == 1 {
        form_pair(pairs[0])
    } else {
        form_urlencoded(pairs.drop_last()) + seq!['&'] + form_pair(pairs.last())
    }
}

/// The decimal digit for a value below ten.
pub open spec fn digit(n: nat) -> char {
    (0x30 + n) as u8 as char
}

/// A natural number written in decimal, without leading zeros.
pub open spec fn decimal(n: nat) -> Seq<char>
    decreases n,
{
    if n < 10 {
        seq![digit(n)]
    } else {
        decimal(n / 10).push(digit(n % 10))
    }
}

/// The pairs of a vector of owned strings, as sequences of characters.
pub open spec fn pair_views(pairs: Seq<(String, String)>) -> Seq<Pair> {
    pairs.map_values(|p: (String, String)| (p.0@, p.1@))
}

/// `args` after an optional text parameter: unchanged where the value is
/// empty, else with the pair at the end.
pub open spec fn with_text(args: Seq<Pair>, name: Seq<char>, value: Seq<char>) -> Seq<Pair> {
    if value.len() == 0 {
        args
    } else {
        args.push((name, value))
    }
}

/// `args` after an optional numeric parameter: unchanged where the value is
/// zero or negative, else with the value in decimal at the end.
pub open spec fn with_number(args: Seq<Pair>, name: Seq<char>, value: int) -> Seq<Pair> {
    if value <= 0 {
        args
    } else {
        args.push((name, decimal(value as nat)))
    }
}

/// `args` after an optional flag: unchanged where the flag is off, else with
/// the value `true` at the end.
pub open spec fn with_flag(args: Seq<Pair>, name: Seq<char>, value: bool) -> Seq<Pair> {
    if value {
        args.push((name, "true"@))
    } else {
        args
    }
}

/// `serde_urlencoded::to_string` on a list of string pairs never fails, and
/// returns the `application/x-www-form-urlencoded` form of the list: for each
/// pair the name, `=` and the value, pairs joined by `&`, where a name or
/// value is written as its UTF-8 bytes, letters, digits and `*-._` unchanged,
/// a space as `+`, and any other byte as `%` and two upper-case hex digits.
#[verifier::external_body]
fn urlencode(pairs: &Vec<(String, String)>) -> (out: String)
    ensures
        out@ == form_urlencoded(pair_views(pairs@)),
{
    serde_urlencoded::to_string(pairs).unwrap()
}

/// Appends `n` in decimal to `out`.
pub fn push_decimal(out: &mut String, n: u64)
    ensures
        final(out)@ == old(out)@ + decimal(n as nat),
    decreases n,
{
    if n >= 10 {
        push_decimal(out, n / 10);
    }
    out.push(((0x30 + n % 10) as u8) as char);
}

/// The optional parameters of one call that are actually sent, in the order
/// in which they were offered.
pub struct QueryArgs {
    pub pairs: Vec<(String, String)>,
}

impl View for QueryArgs {
    type V = Seq<Pair>;

    open spec fn view(&self) -> Seq<Pair> {
        pair_views(self.pairs@)
    }
}

impl QueryArgs {
    /// No parameters.
    pub fn new() -> (args: Self)
        ensures
            args@ == Seq::<Pair>::empty(),
    {
        QueryArgs { pairs: Vec::new() }
    }

    fn push_pair(&mut self, name: &str, value: String)
        ensures
            final(self)@ == old(self)@.push((name@, value@)),
    {
        self.pairs.push((name.to_owned(), value));
    }

    /// Offers a text parameter. An empty value means that the parameter is
    /// absent, and nothing is added.
    pub fn push_str(&mut self, name: &str, value: &str)
        ensures
            final(self)@ == with_text(old(self)@, name@, value@),
    {
        if !value.is_empty() {
            self.push_pair(name, value.to_owned());
        }
    }

    /// Offers a numeric parameter. Zero or a negative value means that the
    /// parameter is absent, and nothing is added.
    pub fn push_i64(&mut self, name: &str, value: i64)
        ensures
            final(self)@ == with_number(old(self)@, name@, value as int),
    {
        if value > 0 {
            let mut text = String::new();
            push_decimal(&mut text, value as u64);
            self.push_pair(name, text);
        }
    }

    /// Offers a flag. A flag that is off is absent, and nothing is added.
    pub fn push_bool(&mut self, name: &str, value: bool)
        ensures
            final(self)@ == with_flag(old(self)@, name@, value),
    {
        if value {
            self.push_pair(name, "true".to_owned());
        }
    }

    /// The query string of the parameters that were added.
    pub fn encode(&self) -> (out: String)
        ensures
            out@ == form_urlencoded(self@),
    {
        urlencode(&self.pairs)
    }
}

/// Whether some pair of `pairs` has the name `name`.
pub open spec fn has_name(pairs: Seq<Pair>, name: Seq<char>) -> bool {
    exists|i: int| 0 <= i < pairs.len() && (#[trigger] pairs[i]).0 == name
}

/// The characters that the form encoding of a name or a value is made of:
/// letters, digits, `*-._`, `+`, and `%` before two hexadecimal digits.
pub open spec fn is_form_char(c: char) -> bool {
    ((c as u32) < 128 && is_form_plain(c as u8)) || c == '+' || c == '%'
}

/// The position of the first `c` in `text`, or the length of `text` if it
/// holds none.
pub open spec fn index_of(text: Seq<char>, c: char) -> int
    decreases text.len(),
{
    if text.len() == 0 || text[0] == c {
        0
    } else {
        1 + index_of(text.skip(1), c)
    }
}

/// The bytes that a form-encoded name or value stands for: an escape gives
/// the byte it names, `+` a space, any other character its own code.
pub open spec fn form_decoded(text: Seq<char>) -> Seq<u8>
    decreases text.len(),
{
    if text.len() == 0 {
        Seq::empty()
    } else if text[0] == '%' && text.len() >= 3 {
        seq![(hex_value(text[1]) * 16 + hex_value(text[2])) as u8] + form_decoded(text.skip(3))
    } else if text[0] == '+' {
        seq![0x20u8] + form_decoded(text.skip(1))
    } else {
        seq![text[0] as u8] + form_decoded(text.skip(1))
    }
}

/// The pair that one field of a query string stands for: the name before
/// the first `=` and the value behind it, both decoded.
pub open spec fn parsed_pair(field: Seq<char>) -> Pair {
    let eq = index_of(field, '=');
    if eq == field.len() {
        (decode_utf8(form_decoded(field)), Seq::empty())
    } else {
        (
            decode_utf8(form_decoded(field.subrange(0, eq))),
            decode_utf8(form_decoded(field.subrange(eq + 1, field.len() as int))),
        )
    }
}

/// The pairs that a query string stands for: its fields, which `&` parts,
/// each read as a pair.
pub open spec fn parsed_query(text: Seq<char>) -> Seq<Pair>
    decreases text.len(),
{
    let amp = index_of(text, '&');
    if text.len() == 0 {
        Seq::empty()
    } else if 0 <= amp < text.len() {
        seq![parsed_pair(text.subrange(0, amp))] + parsed_query(
            text.subrange(amp + 1, text.len() as int),
        )
    } else {
        seq![parsed_pair(text)]
    }
}

proof fn lemma_index_of_absent(text: Seq<char>, c: char)
    requires
        forall|i: int| 0 <= i < text.len() ==> text[i] != c,
    ensures
        index_of(text, c) == text.len(),
    decreases text.len(),
{
    if text.len() > 0 {
        lemma_index_of_absent(text.skip(1), c);
    }
}

proof fn lemma_index_of_first(front: Seq<char>, c: char, back: Seq<char>)
    requires
        forall|i: int| 0 <= i < front.len() ==> front[i] != c,
    ensures
        index_of(front + seq![c] + back, c) == front.len(),
    decreases front.len(),
{
    let text = front + seq![c] + back;
    if front.len() > 0 {
        assert(text[0] == front[0]);
        assert(text.skip(1) == front.skip(1) + seq![c] + back);
        lemma_index_of_first(front.skip(1), c, back);
    } else {
        assert(text[0] == c);
    }
}

proof fn lemma_form_bytes_concat(front: Seq<u8>, back: Seq<u8>)
    ensures
        form_bytes(front + back) == form_bytes(front) + form_bytes(back),
    decreases back.len(),
{
    if back.len() == 0 {
        assert(front + back == front);
    } else {
        assert((front + back).drop_last() == front + back.drop_last());
        lemma_form_bytes_concat(front, back.drop_last());
    }
}

proof fn lemma_form_bytes_chars(bytes: Seq<u8>)
    ensures
        forall|i: int| 0 <= i < form_bytes(bytes).len() ==> is_form_char(#[trigger] form_bytes(bytes)[i]),
    decreases bytes.len(),
{
    if bytes.len() > 0 {
        let front = form_bytes(bytes.drop_last());
        let text = form_bytes(bytes);
        lemma_form_bytes_chars(bytes.drop_last());
        assert forall|i: int| 0 <= i < text.len() implies is_form_char(#[trigger] text[i]) by {
            if i < front.len() {
                assert(text[i] == front[i]);
            }
        }
    }
}

proof fn lemma_decode_form_byte(b: u8, rest: Seq<char>)
    ensures
        form_decoded(form_byte(b) + rest) == seq![b] + form_decoded(rest),
{
    let text = form_byte(b) + rest;
    if is_form_plain(b) || b == 0x20 {
        assert(text.skip(1) == rest);
    } else {
        assert(text.skip(3) == rest);
    }
}

proof fn lemma_decode_form_bytes(bytes: Seq<u8>)
    ensures
        form_decoded(form_bytes(bytes)) == bytes,
    decreases bytes.len(),
{
    if bytes.len() > 0 {
        let rest = bytes.skip(1);
        let first = seq![bytes[0]];
        assert(bytes == first + rest);
        assert(form_bytes(first) == form_byte(bytes[0])) by {
            assert(first.drop_last() == Seq::<u8>::empty());
            assert(form_bytes(first.drop_last()) == Seq::<char>::empty());
            assert(form_bytes(first) == form_bytes(first.drop_last()) + form_byte(first.last()));
        }
        lemma_form_bytes_concat(first, rest);
        lemma_decode_form_byte(bytes[0], form_bytes(rest));
        lemma_decode_form_bytes(rest);
    }
}

/// The field of one pair holds no `&`, and read as a pair it gives the pair
/// back.
pub proof fn lemma_pair_parses_back(pair: Pair)
    ensures
        parsed_pair(form_pair(pair)) == pair,
        form_pair(pair).len() > 0,
        forall|i: int| 0 <= i < form_pair(pair).len() ==> form_pair(pair)[i] != '&',
{
    let name = form_bytes(encode_utf8(pair.0));
    let value = form_bytes(encode_utf8(pair.1));
    let field = form_pair(pair);
    lemma_form_bytes_chars(encode_utf8(pair.0));
    lemma_form_bytes_chars(encode_utf8(pair.1));
    assert forall|i: int| 0 <= i < field.len() implies field[i] != '&' by {
        if i < name.len() {
            assert(field[i] == name[i]);
        } else if i > name.len() {
            assert(field[i] == value[i - name.len() - 1]);
        }
    }
    assert forall|i: int| 0 <= i < name.len() implies name[i] != '=' by {
        assert(is_form_char(name[i]));
    }
    lemma_index_of_first(name, '=', value);
    assert(field.subrange(0, name.len() as int) == name);
    assert(field.subrange(name.len() as int + 1, field.len() as int) == value);
    lemma_decode_form_bytes(encode_utf8(pair.0));
    lemma_decode_form_bytes(encode_utf8(pair.1));
    encode_utf8_decode_utf8(pair.0);
    encode_utf8_decode_utf8(pair.1);
}

/// The query string of a list that starts with `first`: the field of
/// `first`, and behind it `&` and the query string of the rest, if there is
/// a rest.
pub proof fn lemma_form_urlencoded_front(first: Pair, rest: Seq<Pair>)
    ensures
        form_urlencoded(seq![first] + rest) == if rest.len() == 0 {
            form_pair(first)
        } else {
            form_pair(first) + seq!['&'] + form_urlencoded(rest)
        },
    decreases rest.len(),
{
    let all = seq![first] + rest;
    if rest.len() == 0 {
    } else if rest.len() == 1 {
        assert(all.drop_last() == seq![first]);
        assert(form_urlencoded(seq![first]) == form_pair(first));
    } else {
        assert(all.drop_last() == seq![first] + rest.drop_last());
        lemma_form_urlencoded_front(first, rest.drop_last());
        assert(form_urlencoded(all) == form_pair(first) + seq!['&'] + form_urlencoded(rest));
    }
}

/// A query string says which pairs it was built from: read back field by
/// field, it gives the list of pairs, names and values as they were before
/// encoding.
pub proof fn lemma_query_parses_back(pairs: Seq<Pair>)
    ensures
        parsed_query(form_urlencoded(pairs)) == pairs,
    decreases pairs.len(),
{
    if pairs.len() > 0 {
        let first = pairs[0];
        let rest = pairs.skip(1);
        let text = form_urlencoded(pairs);
        let field = form_pair(first);
        assert(pairs == seq![first] + rest);
        lemma_form_urlencoded_front(first, rest);
        lemma_pair_parses_back(first);
        if rest.len() == 0 {
            lemma_index_of_absent(text, '&');
        } else {
            let tail = form_urlencoded(rest);
            lemma_index_of_first(field, '&', tail);
            assert(text.subrange(0, field.len() as int) == field);
            assert(text.subrange(field.len() as int + 1, text.len() as int) == tail);
            lemma_query_parses_back(rest);
        }
    }
}

/// An optional parameter that is absent is not sent. Offering a parameter
/// with an empty text, with a number that is not positive, or with a flag
/// that is off leaves the query string as it was, so the string holds the
/// parameter's name only if a pair sent before has that name.
pub proof fn lemma_absent_parameter_is_not_sent(args: Seq<Pair>, name: Seq<char>, number: int)
    requires
        number <= 0,
    ensures
        form_urlencoded(with_text(args, name, Seq::empty())) == form_urlencoded(args),
        form_urlencoded(with_number(args, name, number)) == form_urlencoded(args),
        form_urlencoded(with_flag(args, name, false)) == form_urlencoded(args),
        has_name(parsed_query(form_urlencoded(with_text(args, name, Seq::empty()))), name)
            <==> has_name(args, name),
        has_name(parsed_query(form_urlencoded(with_number(args, name, number))), name)
            <==> has_name(args, name),
        has_name(parsed_query(form_urlencoded(with_flag(args, name, false))), name) <==> has_name(
            args,
            name,
        ),
{
    lemma_query_parses_back(args);
}

/// An optional parameter that is present is sent once, behind those sent
/// before, under its name and with its value.
pub proof fn lemma_present_parameter_is_sent(
    args: Seq<Pair>,
    name: Seq<char>,
    text: Seq<char>,
    number: int,
)
    requires
        text.len() > 0,
        number > 0,
    ensures
        parsed_query(form_urlencoded(with_text(args, name, text))) == args.push((name, text)),
        parsed_query(form_urlencoded(with_number(args, name, number))) == args.push(
            (name, decimal(number as nat)),
        ),
        parsed_query(form_urlencoded(with_flag(args, name, true))) == args.push((name, "true"@)),
{
    lemma_query_parses_back(with_text(args, name, text));
    lemma_query_parses_back(with_number(args, name, number));
    lemma_query_parses_back(with_flag(args, name, true));
}

/// Whether a query string holds a field with the name `name`.
pub open spec fn query_has_name(text: Seq<char>, name: Seq<char>) -> bool {
    has_name(parsed_query(text), name)
}

/// The names of a list with one more pair at its end: the names of the
/// list, and the name of the pair.
pub proof fn lemma_names_push(args: Seq<Pair>, pair: Pair)
    ensures
        forall|name: Seq<char>| #[trigger]
            has_name(args.push(pair), name) <==> has_name(args, name) || pair.0 == name,
{
    let longer = args.push(pair);
    assert forall|name: Seq<char>| #[trigger]
        has_name(longer, name) <==> has_name(args, name) || pair.0 == name by {
        if has_name(args, name) {
            let i = choose|i: int| 0 <= i < args.len() && (#[trigger] args[i]).0 == name;
            assert(longer[i] == args[i]);
        }
        if pair.0 == name {
            assert(longer[args.len() as int] == pair);
        }
        if has_name(longer, name) {
            let i = choose|i: int| 0 <= i < longer.len() && (#[trigger] longer[i]).0 == name;
            if i < args.len() {
                assert(longer[i] == args[i]);
            }
        }
    }
}

/// The names sent after an optional text parameter was offered: those sent
/// before, and the parameter's name if its value is not empty.
pub proof fn lemma_names_with_text(args: Seq<Pair>, offered: Seq<char>, value: Seq<char>)
    ensures
        forall|name: Seq<char>| #[trigger]
            has_name(with_text(args, offered, value), name) <==> has_name(args, name) || (
            value.len() > 0 && offered == name),
{
    lemma_names_push(args, (offered, value));
}

/// The names sent after an optional number was offered: those sent before,
/// and the parameter's name if the number is positive.
pub proof fn lemma_names_with_number(args: Seq<Pair>, offered: Seq<char>, value: int)
    ensures
        forall|name: Seq<char>| #[trigger]
            has_name(with_number(args, offered, value), name) <==> has_name(args, name) || (value
                > 0 && offered == name),
{
    lemma_names_push(args, (offered, decimal(value as nat)));
}

/// The names sent after an optional flag was offered: those sent before, and
/// the flag's name if it is on.
pub proof fn lemma_names_with_flag(args: Seq<Pair>, offered: Seq<char>, value: bool)
    ensures
        forall|name: Seq<char>| #[trigger]
            has_name(with_flag(args, offered, value), name) <==> has_name(args, name) || (value
                && offered == name),
{
    lemma_names_push(args, (offered, "true"@));
}

} // verus!
