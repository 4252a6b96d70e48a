//! Authentication support for HTTP requests: the value of the
//! `Authorization` header for Basic, Bearer and custom schemes.

use vstd::prelude::*;
use vstd::string::*;

verus! {

/// The base64 digit (standard alphabet) for a 6-bit value.
pub open spec fn base64_digit(v: int) -> char {
    if v < 26 {
        (65 + v) as char
    } else if v < 52 {
        (97 + (v - 26)) as char
    } else if v < 62 {
        (48 + (v - 52)) as char
    } else if v == 62 {
        '+'
    } else {
        '/'
    }
}

/// The four characters that encode one group of up to three bytes,
/// `count` of which (1, 2 or 3) are real; missing bytes count as zero
/// and the digits they alone would produce are replaced by `=`.
pub open spec fn base64_group(b1: u8, b2: u8, b3: u8, count: int) -> Seq<char> {
    let w = b1 * 65536 + b2 * 256 + b3;
    seq![
        base64_digit(w / 262144),
        base64_digit((w / 4096) % 64),
        if count >= 2 { base64_digit((w / 64) % 64) } else { '=' },
        if count >= 3 { base64_digit(w % 64) } else { '=' },
    ]
}

/// Standard padded base64 encoding (RFC 4648, section 4).
pub open spec fn spec_base64(s: Seq<u8>) -> Seq<char>
    decreases s.len(),
{
    if s.len() == 0 {
        seq![]
    } else if s.len() == 1 {
        base64_group(s[0], 0, 0, 1)
    } else if s.len() == 2 {
        base64_group(s[0], s[1], 0, 2)
    } else {
        base64_group(s[0], s[1], s[2], 3) + spec_base64(s.skip(3))
    }
}

/// What is left to encode once the first `i` bytes are done.
pub open spec fn base64_rest(s: Seq<u8>, i: int) -> Seq<char> {
    if i < s.len() {
        spec_base64(s.skip(i))
    } else {
        seq![]
    }
}

proof fn lemma_sextets(b1: u8, b2: u8, b3: u8)
    by (bit_vector)
    ensures
        (((b1 as u32) << 16u32 | (b2 as u32) << 8u32 | (b3 as u32)) >> 18u32) & 63u32
            == (b1 * 65536 + b2 * 256 + b3) / 262144,
        (((b1 as u32) << 16u32 | (b2 as u32) << 8u32 | (b3 as u32)) >> 12u32) & 63u32
            == ((b1 * 65536 + b2 * 256 + b3) / 4096) % 64,
        (((b1 as u32) << 16u32 | (b2 as u32) << 8u32 | (b3 as u32)) >> 6u32) & 63u32
            == ((b1 * 65536 + b2 * 256 + b3) / 64) % 64,
        ((b1 as u32) << 16u32 | (b2 as u32) << 8u32 | (b3 as u32)) & 63u32
            == (b1 * 65536 + b2 * 256 + b3) % 64,
{
}

/// The character of the base64 alphabet for a 6-bit value.
fn alphabet_char(v: u32) -> (c: char)
    requires
        v < 64,
    ensures
        c == base64_digit(v as int),
{
    if v < 26 {
        ((65 + v) as u8) as char
    } else if v < 52 {
        ((97 + (v - 26)) as u8) as char
    } else if v < 62 {
        ((48 + (v - 52)) as u8) as char
    } else if v == 62 {
        '+'
    } else {
        '/'
    }
}


proof fn lemma_rest_step(s: Seq<u8>, i: int)
    requires
        0 <= i < s.len(),
    ensures
        s.len() - i == 1 ==> base64_rest(s, i) == base64_group(s[i], 0, 0, 1),
        s.len() - i == 2 ==> base64_rest(s, i) == base64_group(s[i], s[i + 1], 0, 2),
        s.len() - i >= 3 ==> base64_rest(s, i) == base64_group(s[i], s[i + 1], s[i + 2], 3)
            + base64_rest(s, i + 3),
{
    let t = s.skip(i);
    assert(t.len() == s.len() - i);
    assert(t[0] == s[i]);
    if t.len() >= 2 {
        assert(t[1] == s[i + 1]);
    }
    if t.len() >= 3 {
        assert(t[2] == s[i + 2]);
        assert(t.skip(3) =~= s.skip(i + 3));
        assert(spec_base64(t) == base64_group(t[0], t[1], t[2], 3) + spec_base64(t.skip(3)));
        if i + 3 >= s.len() {
            assert(s.skip(i + 3).len() == 0);
            assert(spec_base64(s.skip(i + 3)) == Seq::<char>::empty());
        }
    }
}

/// Appends the encoding of one group; `count` of the three bytes are real.
fn push_group(result: &mut String, b1: u8, b2: u8, b3: u8, count: usize)
    requires
        1 <= count <= 3,
        count < 2 ==> b2 == 0,
        count < 3 ==> b3 == 0,
    ensures
        final(result)@ == old(result)@ + base64_group(b1, b2, b3, count as int),
{
    let bitmap: u32 = ((b1 as u32) << 16u32) | ((b2 as u32) << 8u32) | (b3 as u32);
    proof {
        lemma_sextets(b1, b2, b3);
    }
    assert((bitmap >> 18u32) & 63u32 < 64) by (bit_vector);
    assert((bitmap >> 12u32) & 63u32 < 64) by (bit_vector);
    assert((bitmap >> 6u32) & 63u32 < 64) by (bit_vector);
    assert(bitmap & 63u32 < 64) by (bit_vector);
    let ghost before = result@;

    result.push(alphabet_char((bitmap >> 18u32) & 63u32));
    result.push(alphabet_char((bitmap >> 12u32) & 63u32));

    if count >= 2 {
        result.push(alphabet_char((bitmap >> 6u32) & 63u32));
    } else {
        result.push('=');
    }

    if count >= 3 {
        result.push(alphabet_char(bitmap & 63u32));
    } else {
        result.push('=');
    }
    assert(result@ =~= before + base64_group(b1, b2, b3, count as int));
}

/// Encodes bytes as standard padded base64 (RFC 4648), the encoding that
/// Basic authentication applies to `username:password`.
pub fn base64_encode(input: &[u8]) -> (result: String)
    ensures
        result@ == spec_base64(input@),
{
    let mut result = String::new();
    let ghost s = input@;
    let mut i: usize = 0;
    assert(s.skip(0) =~= s);
    while i < input.len()
        invariant
            s == input@,
            i <= s.len(),
            result@ + base64_rest(s, i as int) == spec_base64(s),
        decreases s.len() - i,
    {
        let b1 = input[i];
        let b2 = if input.len() - i > 1 { input[i + 1] } else { 0 };
        let b3 = if input.len() - i > 2 { input[i + 2] } else { 0 };

        let ghost before = result@;
        let count: usize = if input.len() - i >= 3 { 3 } else { input.len() - i };
        proof {
            lemma_rest_step(s, i as int);
            if i + 3 >= s.len() {
                assert(base64_rest(s, s.len() as int) == Seq::<char>::empty());
            }
        }
        push_group(&mut result, b1, b2, b3, count);
        assert(result@ == before + base64_group(b1, b2, b3, count as int));

        if input.len() - i > 3 {
            i += 3;
        } else {
            i = input.len();
        }
    }

    result
}

/// Every three bytes become four characters, and a final group of one or
/// two bytes becomes four characters with padding: the encoding of `n`
/// bytes has `4 * ceil(n / 3)` characters.
pub proof fn law_base64_length(s: Seq<u8>)
    ensures
        spec_base64(s).len() == 4 * ((s.len() + 2) / 3),
    decreases s.len(),
{
    if s.len() >= 3 {
        law_base64_length(s.skip(3));
    }
}

/// No base64 digit is the padding character.
proof fn lemma_digit_not_pad(v: int)
    requires
        0 <= v < 64,
    ensures
        base64_digit(v) != '=',
{
}

/// The padding: the encoding of `n` bytes ends with `(3 - n % 3) % 3`
/// characters `=`, and no other character is `=`.
pub proof fn law_base64_padding(s: Seq<u8>)
    ensures
        forall|i: int| 0 <= i < spec_base64(s).len() ==> (#[trigger] spec_base64(s)[i] == '='
            <==> i >= spec_base64(s).len() - (3 - s.len() % 3) % 3),
    decreases s.len(),
{
    law_base64_length(s);
    if s.len() == 0 {
    } else if s.len() < 3 {
        let b2: u8 = if s.len() == 2 { s[1] } else { 0 };
        let w = s[0] * 65536 + b2 * 256;
        assert(0 <= w < 16777216) by (nonlinear_arith)
            requires w == s[0] * 65536 + b2 * 256, 0 <= s[0] < 256, 0 <= b2 < 256;
        lemma_digit_not_pad(w / 262144);
        lemma_digit_not_pad((w / 4096) % 64);
        lemma_digit_not_pad((w / 64) % 64);
    } else {
        let t = s.skip(3);
        law_base64_padding(t);
        law_base64_length(t);
        let w = s[0] * 65536 + s[1] * 256 + s[2];
        assert(0 <= w < 16777216) by (nonlinear_arith)
            requires w == s[0] * 65536 + s[1] * 256 + s[2], 0 <= s[0] < 256, 0 <= s[1] < 256, 0 <= s[2] < 256;
        lemma_digit_not_pad(w / 262144);
        lemma_digit_not_pad((w / 4096) % 64);
        lemma_digit_not_pad((w / 64) % 64);
        lemma_digit_not_pad(w % 64);
        let g = base64_group(s[0], s[1], s[2], 3);
        assert(spec_base64(s) == g + spec_base64(t));
        assert(t.len() % 3 == s.len() % 3);
        assert forall|i: int| 0 <= i < spec_base64(s).len() implies (#[trigger] spec_base64(s)[i] == '='
            <==> i >= spec_base64(s).len() - (3 - s.len() % 3) % 3) by {
            if i >= 4 {
                assert(spec_base64(s)[i] == spec_base64(t)[i - 4]);
            } else {
                assert(spec_base64(s)[i] == g[i]);
            }
        }
    }
}

/// The 6-bit value of a base64 digit (standard alphabet); 0 for any other
/// character.
pub open spec fn digit_value(c: char) -> int {
    if 'A' <= c && c <= 'Z' {
        c as int - 65
    } else if 'a' <= c && c <= 'z' {
        c as int - 97 + 26
    } else if '0' <= c && c <= '9' {
        c as int - 48 + 52
    } else if c == '+' {
        62
    } else if c == '/' {
        63
    } else {
        0
    }
}

/// The bytes one group of four characters decodes to: three, or two when
/// it ends with one `=`, or one when it ends with two.
pub open spec fn decode_group(g: Seq<char>) -> Seq<u8> {
    let d2 = if g[2] == '=' { 0 } else { digit_value(g[2]) };
    let d3 = if g[3] == '=' { 0 } else { digit_value(g[3]) };
    let w = digit_value(g[0]) * 262144 + digit_value(g[1]) * 4096 + d2 * 64 + d3;
    let bytes = seq![(w / 65536) as u8, ((w / 256) % 256) as u8, (w % 256) as u8];
    if g[2] == '=' {
        bytes.take(1)
    } else if g[3] == '=' {
        bytes.take(2)
    } else {
        bytes
    }
}

/// Standard base64 decoding of text made of whole groups of four.
pub open spec fn spec_base64_decode(r: Seq<char>) -> Seq<u8>
    decreases r.len(),
{
    if r.len() < 4 {
        Seq::empty()
    } else {
        decode_group(r.take(4)) + spec_base64_decode(r.skip(4))
    }
}

proof fn lemma_digit_value(v: int)
    requires
        0 <= v < 64,
    ensures
        digit_value(base64_digit(v)) == v,
{
}

proof fn lemma_regroup(b1: u32, b2: u32, b3: u32)
    by (bit_vector)
    requires
        b1 < 256,
        b2 < 256,
        b3 < 256,
    ensures
        ((b1 * 65536 + b2 * 256 + b3) / 262144) * 262144 + (((b1 * 65536 + b2 * 256 + b3) / 4096) % 64) * 4096
            + (((b1 * 65536 + b2 * 256 + b3) / 64) % 64) * 64 + (b1 * 65536 + b2 * 256 + b3) % 64
            == b1 * 65536 + b2 * 256 + b3,
        (b1 * 65536 + b2 * 256 + b3) / 65536 == b1,
        ((b1 * 65536 + b2 * 256 + b3) / 256) % 256 == b2,
        (b1 * 65536 + b2 * 256 + b3) % 256 == b3,
        b3 == 0 ==> (b1 * 65536 + b2 * 256 + b3) % 64 == b3,
        b2 == 0 && b3 == 0 ==> ((b1 * 65536 + b2 * 256 + b3) / 64) % 64 == b2,
{
}

proof fn lemma_decode_group(b1: u8, b2: u8, b3: u8, count: int)
    requires
        1 <= count <= 3,
        count < 2 ==> b2 == 0,
        count < 3 ==> b3 == 0,
    ensures
        decode_group(base64_group(b1, b2, b3, count)) == seq![b1, b2, b3].take(count),
{
    let w = b1 * 65536 + b2 * 256 + b3;
    lemma_regroup(b1 as u32, b2 as u32, b3 as u32);
    assert(0 <= w < 16777216) by (nonlinear_arith)
        requires w == b1 * 65536 + b2 * 256 + b3, 0 <= b1 < 256, 0 <= b2 < 256, 0 <= b3 < 256;
    let d0 = w / 262144;
    let d1 = (w / 4096) % 64;
    let d2 = (w / 64) % 64;
    let d3 = w % 64;
    assert(0 <= d0 < 64);
    lemma_digit_value(d0);
    lemma_digit_value(d1);
    lemma_digit_value(d2);
    lemma_digit_value(d3);
    lemma_digit_not_pad(d2);
    lemma_digit_not_pad(d3);
    let g = base64_group(b1, b2, b3, count);
    assert(digit_value(g[0]) == d0);
    assert(digit_value(g[1]) == d1);
    let e2 = if g[2] == '=' { 0 } else { digit_value(g[2]) };
    let e3 = if g[3] == '=' { 0 } else { digit_value(g[3]) };
    assert(e2 == d2);
    assert(e3 == d3);
    let v = digit_value(g[0]) * 262144 + digit_value(g[1]) * 4096 + e2 * 64 + e3;
    assert(v == w);
    assert((v / 65536) as u8 == b1);
    assert(((v / 256) % 256) as u8 == b2);
    assert((v % 256) as u8 == b3);
    assert(decode_group(g) =~= seq![b1, b2, b3].take(count));
}

/// Decoding gives back the bytes: standard base64 decoding of the
/// encoding of any bytes is those bytes.
pub proof fn law_base64_round_trip(s: Seq<u8>)
    ensures
        spec_base64_decode(spec_base64(s)) == s,
    decreases s.len(),
{
    law_base64_length(s);
    if s.len() == 0 {
        assert(spec_base64_decode(spec_base64(s)) =~= s);
    } else if s.len() == 1 {
        lemma_decode_group(s[0], 0, 0, 1);
        let r = spec_base64(s);
        assert(r.take(4) =~= r);
        assert(r.skip(4).len() == 0);
        assert(spec_base64_decode(r.skip(4)) =~= Seq::<u8>::empty());
        assert(spec_base64_decode(r) =~= s);
    } else if s.len() == 2 {
        lemma_decode_group(s[0], s[1], 0, 2);
        let r = spec_base64(s);
        assert(r.take(4) =~= r);
        assert(r.skip(4).len() == 0);
        assert(spec_base64_decode(r.skip(4)) =~= Seq::<u8>::empty());
        assert(spec_base64_decode(r) =~= s);
    } else {
        let t = s.skip(3);
        law_base64_round_trip(t);
        lemma_decode_group(s[0], s[1], s[2], 3);
        let g = base64_group(s[0], s[1], s[2], 3);
        let r = spec_base64(s);
        assert(r == g + spec_base64(t));
        assert(r.take(4) =~= g);
        assert(r.skip(4) =~= spec_base64(t));
        assert(spec_base64_decode(r) =~= s);
    }
}

/// Encoding is compositional at group boundaries: when the first part's
/// length is a multiple of three, the encoding of the concatenation is the
/// concatenation of the encodings.
pub proof fn law_base64_append(a: Seq<u8>, b: Seq<u8>)
    requires
        a.len() % 3 == 0,
    ensures
        spec_base64(a + b) == spec_base64(a) + spec_base64(b),
    decreases a.len(),
{
    if a.len() == 0 {
        assert(a + b =~= b);
        assert(spec_base64(a) == Seq::<char>::empty());
        assert(spec_base64(a) + spec_base64(b) =~= spec_base64(b));
    } else {
        let ab = a + b;
        assert(ab.skip(3) =~= a.skip(3) + b);
        assert(ab[0] == a[0] && ab[1] == a[1] && ab[2] == a[2]);
        law_base64_append(a.skip(3), b);
        assert(spec_base64(ab) == base64_group(a[0], a[1], a[2], 3) + spec_base64(ab.skip(3)));
        assert(spec_base64(a) == base64_group(a[0], a[1], a[2], 3) + spec_base64(a.skip(3)));
        assert(spec_base64(ab) =~= spec_base64(a) + spec_base64(b));
    }
}

/// Authentication methods supported by HTTP requests; each variant yields
/// the value of the `Authorization` header.
pub enum Auth {
    /// HTTP Basic authentication with username and password.
    Basic {
        /// Username for basic authentication
        username: String,
        /// Password for basic authentication
        password: String,
    },
    /// Bearer token authentication (OAuth, JWT, etc.).
    Bearer {
        /// Bearer token
        token: String,
    },
    /// Custom authorization header with a custom scheme.
    Custom {
        /// Authentication scheme (e.g., "ApiKey", "Digest")
        scheme: String,
        /// Credentials for the scheme
        credentials: String,
    },
}

/// The abstract value of an `Auth`: its variant and its strings.
pub enum AuthView {
    /// Basic { username, password }
    Basic(Seq<char>, Seq<char>),
    /// Bearer { token }
    Bearer(Seq<char>),
    /// Custom { scheme, credentials }
    Custom(Seq<char>, Seq<char>),
}

impl View for Auth {
    type V = AuthView;

    open spec fn view(&self) -> AuthView {
        match self {
            Auth::Basic { username, password } => AuthView::Basic(username@, password@),
            Auth::Bearer { token } => AuthView::Bearer(token@),
            Auth::Custom { scheme, credentials } => AuthView::Custom(scheme@, credentials@),
        }
    }
}

/// The UTF-8 bytes of a character sequence.
pub open spec fn utf8(s: Seq<char>) -> Seq<u8> {
    vstd::utf8::encode_utf8(s)
}

/// `Basic <base64(username:password)>`.
fn basic_header_value(username: &String, password: &String) -> (value: String)
    ensures
        value@ == "Basic "@ + spec_base64(utf8(username@ + seq![':'] + password@)),
{
    let mut credentials = username.clone();
    credentials.push(':');
    credentials.append(password.as_str());
    assert(credentials@ == username@ + seq![':'] + password@);
    let bytes = credentials.as_str().as_bytes();
    let encoded = base64_encode(bytes);
    let mut value = String::from_str("Basic ");
    value.append(encoded.as_str());
    value
}

/// The `Authorization` header value of an authentication method.
pub open spec fn spec_header_value(a: AuthView) -> Seq<char> {
    match a {
        AuthView::Basic(u, p) => "Basic "@ + spec_base64(utf8(u + seq![':'] + p)),
        AuthView::Bearer(t) => "Bearer "@ + t,
        AuthView::Custom(s, c) => s + seq![' '] + c,
    }
}

/// The text that describes an authentication method for display.
pub open spec fn spec_description(a: AuthView) -> Seq<char> {
    match a {
        AuthView::Basic(u, _) => "Basic authentication for user: "@ + u,
        AuthView::Bearer(_) => "Bearer token authentication"@,
        AuthView::Custom(s, _) => "Custom "@ + s + " authentication"@,
    }
}

impl Auth {
    /// Create HTTP Basic authentication.
    pub fn basic(username: &str, password: &str) -> (auth: Self)
        ensures
            auth@ == AuthView::Basic(username@, password@),
    {
        Auth::Basic { username: String::from_str(username), password: String::from_str(password) }
    }

    /// Create Bearer token authentication.
    pub fn bearer(token: &str) -> (auth: Self)
        ensures
            auth@ == AuthView::Bearer(token@),
    {
        Auth::Bearer { token: String::from_str(token) }
    }

    /// Create custom authentication with a custom scheme.
    pub fn custom(scheme: &str, credentials: &str) -> (auth: Self)
        ensures
            auth@ == AuthView::Custom(scheme@, credentials@),
    {
        Auth::Custom { scheme: String::from_str(scheme), credentials: String::from_str(credentials) }
    }

    /// Convert authentication to the `Authorization` header value:
    /// `Basic <base64(username:password)>`, `Bearer <token>` or
    /// `<scheme> <credentials>`.
    pub fn to_header_value(&self) -> (value: String)
        ensures
            value@ == spec_header_value(self@),
    {
        match self {
            Auth::Basic { username, password } => basic_header_value(username, password),
            Auth::Bearer { token } => {
                let mut value = String::from_str("Bearer ");
                value.append(token.as_str());
                value
            },
            Auth::Custom { scheme, credentials } => {
                let mut value = scheme.clone();
                value.push(' ');
                value.append(credentials.as_str());
                value
            },
        }
    }

    /// The human-readable description of the authentication method (the
    /// text its `Display` form shows; the password and token are omitted).
    pub fn to_display_string(&self) -> (text: String)
        ensures
            text@ == spec_description(self@),
    {
        match self {
            Auth::Basic { username, .. } => {
                let mut text = String::from_str("Basic authentication for user: ");
                text.append(username.as_str());
                text
            },
            Auth::Bearer { .. } => String::from_str("Bearer token authentication"),
            Auth::Custom { scheme, .. } => {
                let mut text = String::from_str("Custom ");
                text.append(scheme.as_str());
                text.append(" authentication");
                text
            },
        }
    }
}

} // verus!
