//! Request identity and rate limits: the authenticated user and its roles, the
//! bearer token of an `Authorization` header, the base64 decoding of
//! development tokens, and the per-route request limits.

use crate::error::RustCommerceError;
use vstd::arithmetic::power2::{lemma2_to64, pow2};
use vstd::bits::{lemma_u32_shl_is_mul, lemma_u32_shr_is_div};
use vstd::prelude::*;

verus! {

/// An authenticated user taken from a request.
#[derive(Debug, Clone)]
pub struct AuthUser {
    pub user_id: u128,
    pub email: String,
    pub roles: Vec<String>,
}

/// Whether `roles` lists `role`.
pub open spec fn spec_has_role(roles: Seq<String>, role: Seq<char>) -> bool {
    exists|i: int| 0 <= i < roles.len() && (#[trigger] roles[i])@ == role
}

/// Admins hold the `admin` or the `super_admin` role.
pub open spec fn spec_is_admin(roles: Seq<String>) -> bool {
    spec_has_role(roles, "admin"@) || spec_has_role(roles, "super_admin"@)
}

/// Managers are admins or hold the `store_manager` role.
pub open spec fn spec_is_manager(roles: Seq<String>) -> bool {
    spec_is_admin(roles) || spec_has_role(roles, "store_manager"@)
}

impl AuthUser {
    /// Whether the user has the given role.
    pub fn has_role(&self, role: &str) -> (r: bool)
        ensures
            r == spec_has_role(self.roles@, role@),
    {
        let wanted = role.to_owned();
        let mut i: usize = 0;
        while i < self.roles.len()
            invariant
                i <= self.roles@.len(),
                wanted@ == role@,
                forall|j: int| 0 <= j < i ==> (#[trigger] self.roles@[j])@ != role@,
            decreases self.roles@.len() - i,
        {
            if self.roles[i] == wanted {
                assert(self.roles@[i as int]@ == role@);
                return true;
            }
            i = i + 1;
        }
        false
    }

    /// Whether the user is an admin (`admin` or `super_admin`).
    pub fn is_admin(&self) -> (r: bool)
        ensures
            r == spec_is_admin(self.roles@),
    {
        self.has_role("admin") || self.has_role("super_admin")
    }

    /// Whether the user is a store manager (an admin or `store_manager`).
    pub fn is_manager(&self) -> (r: bool)
        ensures
            r == spec_is_manager(self.roles@),
    {
        self.is_admin() || self.has_role("store_manager")
    }
}

/// The token of a `Bearer` authorization header: what follows `"Bearer "`.
pub open spec fn spec_bearer_token(header: Seq<char>) -> Option<Seq<char>> {
    if header.len() >= 7 && header.take(7) == "Bearer "@ {
        Some(header.skip(7))
    } else {
        None
    }
}

/// The token of an `Authorization` header, when it uses the `Bearer` scheme.
pub fn bearer_token(header: &str) -> (r: Option<&str>)
    ensures
        match r {
            Some(t) => spec_bearer_token(header@) == Some(t@),
            None => spec_bearer_token(header@) is None,
        },
{
    let prefix = "Bearer ";
    proof {
        reveal_strlit("Bearer ");
    }
    let n = header.unicode_len();
    if n < 7 {
        return None;
    }
    let mut i: usize = 0;
    while i < 7
        invariant
            i <= 7,
            n == header@.len(),
            n >= 7,
            prefix@ == "Bearer "@,
            prefix@.len() == 7,
            forall|j: int| 0 <= j < i ==> header@[j] == prefix@[j],
        decreases 7 - i,
    {
        if header.get_char(i) != prefix.get_char(i) {
            assert(header@.take(7)[i as int] != "Bearer "@[i as int]);
            return None;
        }
        i = i + 1;
    }
    assert(header@.take(7) =~= "Bearer "@);
    let token = header.substring_char(7, n);
    assert(token@ =~= header@.skip(7));
    Some(token)
}

/// The access check of admin routes: `Forbidden` unless the user is an admin.
pub fn require_admin(user: &AuthUser) -> (r: Result<(), RustCommerceError>)
    ensures
        r is Ok <==> spec_is_admin(user.roles@),
        r matches Err(e) ==> e matches RustCommerceError::Forbidden(m) && m@ == "Admin access required"@,
{
    if !user.is_admin() {
        return Err(RustCommerceError::Forbidden("Admin access required".to_owned()));
    }
    Ok(())
}

// ---------------------------------------------------------------------------
// Base64 (standard alphabet) decoding of development tokens.
// ---------------------------------------------------------------------------

/// The six-bit value of a character of the standard base64 alphabet
/// (`A-Z`, `a-z`, `0-9`, `+`, `/`), or `None` for any other character.
pub open spec fn b64_value(c: char) -> Option<u32> {
    let u = c as u32;
    if 65 <= u <= 90 {
        Some((u - 65) as u32)
    } else if 97 <= u <= 122 {
        Some((u - 71) as u32)
    } else if 48 <= u <= 57 {
        Some((u + 4) as u32)
    } else if u == 43 {
        Some(62)
    } else if u == 47 {
        Some(63)
    } else {
        None
    }
}

/// The text without its trailing `=` padding.
pub open spec fn trim_padding(s: Seq<char>) -> Seq<char>
    decreases s.len(),
{
    if s.len() > 0 && s.last() == '=' {
        trim_padding(s.drop_last())
    } else {
        s
    }
}

/// Every character belongs to the base64 alphabet.
pub open spec fn all_b64(s: Seq<char>) -> bool {
    forall|i: int| 0 <= i < s.len() ==> (#[trigger] b64_value(s[i])) is Some
}

/// Reading the characters' six-bit values as one bit stream, most significant
/// bit first, and cutting it into bytes: the bytes completed so far, the
/// pending bits as a number, and how many bits are pending.
pub open spec fn b64_stream(s: Seq<char>) -> (Seq<u8>, nat, nat)
    decreases s.len(),
{
    if s.len() == 0 {
        (seq![], 0, 0)
    } else {
        let (out, buf, bits) = b64_stream(s.drop_last());
        let buf2: nat = buf * 64 + (b64_value(s.last())->0) as nat;
        let bits2 = bits + 6;
        if bits2 >= 8 {
            let shift = (bits2 - 8) as nat;
            (out.push((buf2 / pow2(shift)) as u8), (buf2 % pow2(shift)) as nat, shift)
        } else {
            (out, buf2 as nat, bits2)
        }
    }
}

/// The bytes that a base64 text decodes to.
pub open spec fn spec_base64_decode(s: Seq<char>) -> Seq<u8> {
    b64_stream(trim_padding(s)).0
}

/// The six-bit value of a base64 character.
fn b64_lookup(c: char) -> (r: Option<u32>)
    ensures
        r == b64_value(c),
{
    let u = c as u32;
    if 65 <= u && u <= 90 {
        Some(u - 65)
    } else if 97 <= u && u <= 122 {
        Some(u - 71)
    } else if 48 <= u && u <= 57 {
        Some(u + 4)
    } else if u == 43 {
        Some(62)
    } else if u == 47 {
        Some(63)
    } else {
        None
    }
}

/// A six-bit value never exceeds 63.
proof fn lemma_b64_value_bound(c: char)
    ensures
        b64_value(c) matches Some(v) ==> v < 64,
{
}

/// The pending bits stay below eight, and their number below two to that count.
proof fn lemma_b64_stream_bounds(s: Seq<char>)
    requires
        all_b64(s),
    ensures
        b64_stream(s).2 < 8,
        b64_stream(s).1 < pow2(b64_stream(s).2),
        b64_stream(s).2 == (6 * s.len()) % 8,
        b64_stream(s).0.len() == (6 * s.len()) / 8,
    decreases s.len(),
{
    lemma2_to64();
    if s.len() > 0 {
        let t = s.drop_last();
        assert(all_b64(t)) by {
            assert forall|i: int| 0 <= i < t.len() implies (#[trigger] b64_value(t[i])) is Some by {
                assert(t[i] == s[i]);
            }
        }
        lemma_b64_stream_bounds(t);
        assert(b64_value(s[s.len() - 1]) is Some);
        lemma_b64_value_bound(s.last());
        let (out, buf, bits) = b64_stream(t);
        let v = b64_value(s.last())->0;
        let buf2: nat = buf * 64 + v as nat;
        let bits2 = bits + 6;
        assert(buf2 < pow2(bits2)) by {
            assert(pow2(bits2) == pow2(bits) * 64) by {
                vstd::arithmetic::power2::lemma_pow2_adds(bits, 6);
            }
            assert(buf * 64 + v < (buf + 1) * 64) by (nonlinear_arith)
                requires
                    v < 64,
            ;
            assert((buf + 1) * 64 <= pow2(bits) * 64) by (nonlinear_arith)
                requires
                    buf + 1 <= pow2(bits),
            ;
        }
        if bits2 >= 8 {
            let shift = (bits2 - 8) as nat;
            assert(pow2(shift) > 0) by {
                vstd::arithmetic::power2::lemma_pow2_pos(shift);
            }
            assert(buf2 % pow2(shift) < pow2(shift)) by (nonlinear_arith)
                requires
                    pow2(shift) > 0,
            ;
        }
        assert((6 * s.len()) == (6 * t.len()) + 6);
    }
}

/// Taking the next byte off a buffer of `s + 8` pending bits.
proof fn lemma_take_byte(buf: u32, s: u32)
    requires
        s <= 5,
        buf < pow2((s + 8) as nat),
    ensures
        (buf >> s) == buf as nat / pow2(s as nat),
        (buf >> s) < 256,
        (buf & ((1u32 << s) - 1u32) as u32) == buf as nat % pow2(s as nat),
        (1u32 << s) == pow2(s as nat),
{
    lemma2_to64();
    lemma_u32_shr_is_div(buf, s);
    lemma_u32_shl_is_mul(1, s);
    lemma_u32_shl_is_mul(1, ((s + 8u32) as u32));
    assert((1u32 << ((s + 8u32) as u32)) == pow2((s + 8) as nat));
    assert(buf < (1u32 << ((s + 8u32) as u32)) ==> (buf >> s) < 256) by (bit_vector)
        requires
            s <= 5,
    ;
    assert(buf & ((1u32 << s) - 1u32) as u32 == buf % (1u32 << s)) by (bit_vector)
        requires
            s <= 5,
    ;
}

/// Appending six bits to a buffer of fewer than eight.
proof fn lemma_push_six(buf: u32, v: u32)
    requires
        buf < 256,
        v < 64,
    ensures
        ((buf << 6u32) | v) == buf * 64 + v,
{
    assert(buf < 256 && v < 64 ==> ((buf << 6u32) | v) == buf * 64 + v) by (bit_vector);
}

/// Decodes standard base64 (trailing `=` padding ignored). A character outside
/// the alphabet gives `Err("Invalid base64 character")`.
pub fn base64_decode(input: &str) -> (r: Result<Vec<u8>, &'static str>)
    ensures
        r is Ok <==> all_b64(trim_padding(input@)),
        r matches Ok(v) ==> v@ == spec_base64_decode(input@),
        r matches Err(e) ==> e@ == "Invalid base64 character"@,
{
    let ghost full = input@;
    let mut n = input.unicode_len();
    assert(full.take(n as int) =~= full);
    while n > 0 && input.get_char(n - 1) == '='
        invariant
            n <= full.len(),
            full == input@,
            trim_padding(full) == trim_padding(full.take(n as int)),
        decreases n,
    {
        assert(full.take(n as int).drop_last() =~= full.take(n - 1));
        n = n - 1;
    }
    let ghost t = full.take(n as int);
    assert(trim_padding(t) == t);
    let mut output: Vec<u8> = Vec::new();
    let mut buf: u32 = 0;
    let mut bits: u32 = 0;
    let mut i: usize = 0;
    proof {
        lemma2_to64();
        assert(t.take(0) =~= Seq::<char>::empty());
    }
    while i < n
        invariant
            n <= full.len(),
            full == input@,
            t == full.take(n as int),
            trim_padding(full) == t,
            i <= n,
            all_b64(t.take(i as int)),
            b64_stream(t.take(i as int)) == (output@, buf as nat, bits as nat),
            bits < 8,
            buf < pow2(bits as nat),
        decreases n - i,
    {
        let c = input.get_char(i);
        let ghost pre = t.take(i as int);
        let ghost next = t.take(i + 1);
        assert(next.drop_last() =~= pre);
        assert(next.last() == c);
        let val = match b64_lookup(c) {
            Some(v) => v,
            None => {
                proof {
                    assert(t[i as int] == c);
                    assert(!(b64_value(t[i as int]) is Some));
                }
                return Err("Invalid base64 character");
            },
        };
        proof {
            lemma2_to64();
            lemma_b64_value_bound(c);
            assert(buf < 256);
            lemma_push_six(buf, val);
        }
        let ghost buf2: nat = (buf as nat) * 64 + val as nat;
        buf = (buf << 6u32) | val;
        bits = bits + 6;
        proof {
            assert(all_b64(next)) by {
                assert forall|k: int| 0 <= k < next.len() implies (#[trigger] b64_value(
                    next[k],
                )) is Some by {
                    if k < i {
                        assert(next[k] == pre[k]);
                    }
                }
            }
            lemma_b64_stream_bounds(next);
            assert(buf == buf2);
        }
        if bits >= 8 {
            bits = bits - 8;
            proof {
                assert(buf < pow2((bits + 8) as nat));
                lemma_take_byte(buf, bits);
            }
            let byte = (buf >> bits) as u8;
            output.push(byte);
            buf = buf & ((1u32 << bits) - 1);
        }
        i = i + 1;
    }
    assert(t.take(n as int) =~= t);
    Ok(output)
}

/// Eight characters of base64 make six bytes: `k` characters decode to
/// `6k / 8` bytes, whatever they are.
pub proof fn law_base64_length(s: Seq<char>)
    requires
        all_b64(trim_padding(s)),
    ensures
        spec_base64_decode(s).len() == (6 * trim_padding(s).len()) / 8,
{
    lemma_b64_stream_bounds(trim_padding(s));
}

/// The character of a six-bit value in the standard base64 alphabet.
pub open spec fn b64_char(v: int) -> char {
    if v < 26 {
        (65 + v) as char
    } else if v < 52 {
        (71 + v) as char
    } else if v < 62 {
        (v - 4) as char
    } else if v == 62 {
        '+'
    } else {
        '/'
    }
}

/// Three bytes written as four base64 characters.
pub open spec fn b64_group(a: u8, b: u8, c: u8) -> Seq<char> {
    let (x, y, z) = (a as int, b as int, c as int);
    seq![
        b64_char(x / 4),
        b64_char((x % 4) * 16 + y / 16),
        b64_char((y % 16) * 4 + z / 64),
        b64_char(z % 64),
    ]
}

/// The base64 characters of some bytes, without padding: four for each three
/// bytes, then three for two bytes left over, or two for one.
pub open spec fn b64_body(b: Seq<u8>) -> Seq<char>
    decreases b.len(),
{
    if b.len() >= 3 {
        b64_group(b[0], b[1], b[2]) + b64_body(b.subrange(3, b.len() as int))
    } else if b.len() == 2 {
        let (x, y) = (b[0] as int, b[1] as int);
        seq![b64_char(x / 4), b64_char((x % 4) * 16 + y / 16), b64_char((y % 16) * 4)]
    } else if b.len() == 1 {
        let x = b[0] as int;
        seq![b64_char(x / 4), b64_char((x % 4) * 16)]
    } else {
        seq![]
    }
}

/// The `=` padding that completes the last group of `n` bytes.
pub open spec fn b64_padding(n: nat) -> Seq<char> {
    if n % 3 == 1 {
        seq!['=', '=']
    } else if n % 3 == 2 {
        seq!['=']
    } else {
        seq![]
    }
}

/// Standard base64 encoding with `=` padding.
pub open spec fn spec_base64_encode(b: Seq<u8>) -> Seq<char> {
    b64_body(b) + b64_padding(b.len())
}

proof fn lemma_b64_char(v: int)
    requires
        0 <= v < 64,
    ensures
        b64_value(b64_char(v)) == Some(v as u32),
{
}

/// Decoding continues from a byte boundary as it would start afresh.
proof fn lemma_stream_append(s: Seq<char>, t: Seq<char>)
    requires
        b64_stream(s).1 == 0,
        b64_stream(s).2 == 0,
    ensures
        b64_stream(s + t) == (b64_stream(s).0 + b64_stream(t).0, b64_stream(t).1, b64_stream(t).2),
    decreases t.len(),
{
    if t.len() == 0 {
        assert(s + t =~= s);
        assert(b64_stream(s).0 + b64_stream(t).0 =~= b64_stream(s).0);
    } else {
        let u = t.drop_last();
        lemma_stream_append(s, u);
        assert((s + t).drop_last() =~= s + u);
        assert((s + t).last() == t.last());
        let (o, buf, bits) = b64_stream(u);
        let buf2: nat = buf * 64 + (b64_value(t.last())->0) as nat;
        let bits2 = bits + 6;
        if bits2 >= 8 {
            let shift = (bits2 - 8) as nat;
            let x = (buf2 / pow2(shift)) as u8;
            assert((b64_stream(s).0 + o).push(x) =~= b64_stream(s).0 + o.push(x));
        }
    }
}

/// Four characters of a full group decode to its three bytes, ending on a
/// byte boundary.
proof fn lemma_group(a: u8, b: u8, c: u8)
    ensures
        b64_stream(b64_group(a, b, c)) == (seq![a, b, c], 0nat, 0nat),
        all_b64(b64_group(a, b, c)),
{
    lemma2_to64();
    let g = b64_group(a, b, c);
    let (x, y, z) = (a as int, b as int, c as int);
    let v1 = x / 4;
    let v2 = (x % 4) * 16 + y / 16;
    let v3 = (y % 16) * 4 + z / 64;
    let v4 = z % 64;
    lemma_b64_char(v1 as int);
    lemma_b64_char(v2 as int);
    lemma_b64_char(v3 as int);
    lemma_b64_char(v4 as int);
    assert(g.take(1).drop_last() =~= Seq::<char>::empty());
    assert(g.take(2).drop_last() =~= g.take(1));
    assert(g.take(3).drop_last() =~= g.take(2));
    assert(g.drop_last() =~= g.take(3));
    assert(b64_stream(Seq::<char>::empty()) == (Seq::<u8>::empty(), 0nat, 0nat));
    assert(g.take(1).last() == b64_char(v1));
    assert(g.take(2).last() == b64_char(v2));
    assert(g.take(3).last() == b64_char(v3));
    assert(g.last() == b64_char(v4));
    assert(b64_stream(g.take(1)) == (Seq::<u8>::empty(), v1 as nat, 6nat));
    let buf2: nat = (v1 * 64 + v2) as nat;
    assert(x == (x / 4) * 4 + x % 4);
    assert(buf2 == 16 * x + y / 16);
    vstd::arithmetic::div_mod::lemma_fundamental_div_mod_converse(
        buf2 as int,
        16,
        x,
        y / 16,
    );
    assert(buf2 / 16 == a);
    assert(buf2 % 16 == b / 16);
    assert(b64_stream(g.take(2)) == (seq![a], (b / 16) as nat, 4nat));
    let buf3: nat = ((b / 16) * 64 + v3) as nat;
    assert(buf3 / 4 == b);
    assert(buf3 % 4 == c / 64);
    assert(b64_stream(g.take(3)) =~= (seq![a, b], (c / 64) as nat, 2nat));
    let buf4: nat = ((c / 64) * 64 + v4) as nat;
    assert(buf4 == c);
    assert(pow2(0) == 1);
    assert(buf4 / pow2(0) == c);
    assert(buf4 % pow2(0) == 0);
    assert(b64_stream(g).0 =~= seq![a, b, c]);
    assert(b64_stream(g).1 == 0);
    assert(b64_stream(g).2 == 0);
    assert forall|i: int| 0 <= i < g.len() implies (#[trigger] b64_value(g[i])) is Some by {}
}

/// The unpadded characters of some bytes are base64 characters that decode
/// back to those bytes.
proof fn lemma_body(b: Seq<u8>)
    ensures
        all_b64(b64_body(b)),
        b64_stream(b64_body(b)).0 == b,
    decreases b.len(),
{
    lemma2_to64();
    let e = b64_body(b);
    if b.len() >= 3 {
        let g = b64_group(b[0], b[1], b[2]);
        let rest = b.subrange(3, b.len() as int);
        lemma_group(b[0], b[1], b[2]);
        lemma_body(rest);
        lemma_stream_append(g, b64_body(rest));
        assert(seq![b[0], b[1], b[2]] + rest =~= b);
        assert forall|i: int| 0 <= i < e.len() implies (#[trigger] b64_value(e[i])) is Some by {
            if i < 4 {
                assert(e[i] == g[i]);
            } else {
                assert(e[i] == b64_body(rest)[i - 4]);
            }
        }
    } else if b.len() == 2 {
        let x = b[0];
        let y = b[1];
        let (xi, yi) = (x as int, y as int);
        let v1 = xi / 4;
        let v2 = (xi % 4) * 16 + yi / 16;
        let v3 = (yi % 16) * 4;
        lemma_b64_char(v1 as int);
        lemma_b64_char(v2 as int);
        lemma_b64_char(v3 as int);
        assert(e.take(1).drop_last() =~= Seq::<char>::empty());
        assert(e.take(2).drop_last() =~= e.take(1));
        assert(e.drop_last() =~= e.take(2));
        assert(b64_stream(Seq::<char>::empty()) == (Seq::<u8>::empty(), 0nat, 0nat));
        assert(e.take(1).last() == b64_char(v1));
        assert(e.take(2).last() == b64_char(v2));
        assert(e.last() == b64_char(v3));
        assert(b64_stream(e.take(1)) == (Seq::<u8>::empty(), v1 as nat, 6nat));
        let buf2: nat = (v1 * 64 + v2) as nat;
        assert(buf2 / 16 == x);
        assert(buf2 % 16 == y / 16);
        assert(b64_stream(e.take(2)) == (seq![x], (y / 16) as nat, 4nat));
        let buf3: nat = ((yi / 16) * 64 + v3) as nat;
        assert(yi == (yi / 16) * 16 + yi % 16);
        assert(buf3 == yi * 4);
        vstd::arithmetic::div_mod::lemma_fundamental_div_mod_converse(buf3 as int, 4, yi, 0);
        assert(buf3 / 4 == yi);
        assert(b64_stream(e).0 =~= seq![x, y]);
        assert(seq![x, y] =~= b);
        assert forall|i: int| 0 <= i < e.len() implies (#[trigger] b64_value(e[i])) is Some by {}
    } else if b.len() == 1 {
        let x = b[0];
        let xi = x as int;
        let v1 = xi / 4;
        let v2 = (xi % 4) * 16;
        lemma_b64_char(v1 as int);
        lemma_b64_char(v2 as int);
        assert(e.take(1).drop_last() =~= Seq::<char>::empty());
        assert(e.drop_last() =~= e.take(1));
        assert(b64_stream(Seq::<char>::empty()) == (Seq::<u8>::empty(), 0nat, 0nat));
        assert(e.take(1).last() == b64_char(v1));
        assert(e.last() == b64_char(v2));
        assert(b64_stream(e.take(1)) == (Seq::<u8>::empty(), v1 as nat, 6nat));
        let buf2: nat = (v1 * 64 + v2) as nat;
        assert(buf2 / 16 == x);
        assert(b64_stream(e).0 =~= seq![x]);
        assert(seq![x] =~= b);
        assert forall|i: int| 0 <= i < e.len() implies (#[trigger] b64_value(e[i])) is Some by {}
    } else {
        assert(b =~= Seq::<u8>::empty());
    }
}

/// Decoding undoes encoding: the standard base64 text of any bytes is
/// accepted and decodes to those bytes.
pub proof fn law_base64_round_trip(b: Seq<u8>)
    ensures
        all_b64(trim_padding(spec_base64_encode(b))),
        spec_base64_decode(spec_base64_encode(b)) == b,
{
    lemma_body(b);
    let e = b64_body(b);
    let s = spec_base64_encode(b);
    assert(e.len() > 0 ==> e.last() != '=') by {
        if e.len() > 0 {
            assert(b64_value(e[e.len() - 1]) is Some);
        }
    }
    assert(trim_padding(e) == e);
    if b.len() % 3 == 1 {
        assert(s.drop_last() =~= e + seq!['=']);
        assert((e + seq!['=']).drop_last() =~= e);
        assert(trim_padding(e + seq!['=']) == e);
    } else if b.len() % 3 == 2 {
        assert(s.drop_last() =~= e);
    } else {
        assert(s =~= e);
    }
    assert(trim_padding(s) == e);
}

// ---------------------------------------------------------------------------
// Rate limits.
// ---------------------------------------------------------------------------

/// A request limit: at most `max_requests` in `window_seconds`.
#[derive(Debug, Clone, Copy)]
pub struct RateLimitConfig {
    pub max_requests: u32,
    pub window_seconds: u64,
}

impl Default for RateLimitConfig {
    fn default() -> (r: Self)
        ensures
            r.max_requests == 100,
            r.window_seconds == 60,
    {
        RateLimitConfig { max_requests: 100, window_seconds: 60 }
    }
}

/// The limits of the endpoint groups.
pub struct RateLimits;

impl RateLimits {
    /// Standard API endpoints: 100 requests a minute.
    pub fn standard() -> (r: RateLimitConfig)
        ensures
            r.max_requests == 100,
            r.window_seconds == 60,
    {
        RateLimitConfig { max_requests: 100, window_seconds: 60 }
    }

    /// The checkout endpoint: 10 requests a minute.
    pub fn checkout() -> (r: RateLimitConfig)
        ensures
            r.max_requests == 10,
            r.window_seconds == 60,
    {
        RateLimitConfig { max_requests: 10, window_seconds: 60 }
    }

    /// Webhook endpoints: 500 requests a minute.
    pub fn webhook() -> (r: RateLimitConfig)
        ensures
            r.max_requests == 500,
            r.window_seconds == 60,
    {
        RateLimitConfig { max_requests: 500, window_seconds: 60 }
    }

    /// Admin endpoints: 200 requests a minute.
    pub fn admin() -> (r: RateLimitConfig)
        ensures
            r.max_requests == 200,
            r.window_seconds == 60,
    {
        RateLimitConfig { max_requests: 200, window_seconds: 60 }
    }
}

} // verus!
