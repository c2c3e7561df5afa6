//! Profile metadata: the JSON document the agent publishes about itself,
//! built and escaped here rather than handed to a serializer.
//!
//! The document is a flat object with the display name, a fixed
//! self-description, a picture URL and the verification string. String
//! values are escaped per the JSON grammar: quote and backslash get a
//! backslash, control characters become `\u00` plus two hex digits.

use vstd::prelude::*;
use vstd::string::*;

verus! {

/// The lowercase hex digit of a value below 16.
pub open spec fn hex_digit(n: int) -> char {
    "0123456789abcdef"@[n]
}

/// The escape of one character inside a JSON string literal.
pub open spec fn esc_char(c: char) -> Seq<char> {
    if c as u32 == 34 {  // quote
        "\\\""@
    } else if c as u32 == 92 {  // backslash
        "\\\\"@
    } else if (c as u32) < 32 {  // control character
        "\\u00"@ + seq![hex_digit((c as u32 / 16) as int), hex_digit((c as u32 % 16) as int)]
    } else {
        seq![c]
    }
}

/// A string escaped for use inside a JSON string literal.
pub open spec fn json_escaped(s: Seq<char>) -> Seq<char>
    decreases s.len(),
{
    if s.len() == 0 {
        Seq::empty()
    } else {
        esc_char(s[0]) + json_escaped(s.drop_first())
    }
}

/// The profile metadata document for the given field values, with keys in
/// alphabetical order and every value escaped.
pub open spec fn metadata_json_spec(
    name: Seq<char>,
    about: Seq<char>,
    picture: Seq<char>,
    nip05: Seq<char>,
) -> Seq<char> {
    "{\"about\":\""@ + json_escaped(about) + "\",\"name\":\""@ + json_escaped(name)
        + "\",\"nip05\":\""@ + json_escaped(nip05) + "\",\"picture\":\""@ + json_escaped(picture)
        + "\"}"@
}

/// Escape a string for use inside a JSON string literal.
pub fn json_escape(s: &str) -> (r: String)
    ensures
        r@ == json_escaped(s@),
{
    let n = s.unicode_len();
    let mut out = String::new();
    let mut i: usize = 0;
    assert(s@.skip(0) == s@);
    while i < n
        invariant
            n == s@.len(),
            i <= n,
            json_escaped(s@) =~= out@ + json_escaped(s@.skip(i as int)),
        decreases n - i,
    {
        let ghost pre = s@.skip(i as int);
        assert(pre.first() == s@[i as int]);
        assert(pre.drop_first() =~= s@.skip(i + 1));
        let c = s.get_char(i);
        let u = c as u32;
        let ghost out0 = out@;
        if u == 34 {
            out.append("\\\"");
        } else if u == 92 {
            out.append("\\\\");
        } else if u < 32 {
            out.append("\\u00");
            proof {
                reveal_strlit("0123456789abcdef");
            }
            let digits = "0123456789abcdef";
            let hs = digits.substring_char((u / 16) as usize, (u / 16) as usize + 1);
            out.append(hs);
            let ls = digits.substring_char((u % 16) as usize, (u % 16) as usize + 1);
            out.append(ls);
            assert(hs@ =~= seq![hex_digit((c as u32 / 16) as int)]);
            assert(ls@ =~= seq![hex_digit((c as u32 % 16) as int)]);
        } else {
            let one = s.substring_char(i, i + 1);
            assert(one@ =~= seq![s@[i as int]]);
            out.append(one);
        }
        assert(out@ =~= out0 + esc_char(c));
        assert(out@ + json_escaped(s@.skip(i + 1)) =~= out0 + json_escaped(pre));
        i += 1;
    }
    assert(s@.skip(n as int) =~= Seq::<char>::empty());
    out
}

/// Build the profile metadata document: display name, fixed description,
/// picture URL and verification string, each escaped.
pub fn metadata_json(name: &str, about: &str, picture: &str, nip05: &str) -> (r: String)
    ensures
        r@ == metadata_json_spec(name@, about@, picture@, nip05@),
{
    let mut out = String::from_str("{\"about\":\"");
    let e_about = json_escape(about);
    out.append(e_about.as_str());
    out.append("\",\"name\":\"");
    let e_name = json_escape(name);
    out.append(e_name.as_str());
    out.append("\",\"nip05\":\"");
    let e_nip05 = json_escape(nip05);
    out.append(e_nip05.as_str());
    out.append("\",\"picture\":\"");
    let e_picture = json_escape(picture);
    out.append(e_picture.as_str());
    out.append("\"}");
    assert(out@ =~= metadata_json_spec(name@, about@, picture@, nip05@));
    out
}

} // verus!
