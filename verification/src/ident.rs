//! Identifiers of Spotify's catalogue and their printed forms.
use vstd::arithmetic::div_mod::lemma_basic_div;
use vstd::arithmetic::div_mod::lemma_div_denominator;
use vstd::arithmetic::mul::lemma_mul_is_commutative;
use vstd::arithmetic::power::lemma_pow_positive;
use vstd::arithmetic::power::pow;
use vstd::prelude::*;

verus! {

/// The kinds of items that an identifier can name.
#[derive(Clone, Copy, Debug, PartialEq, Eq, Structural)]
pub enum AudioType {
    /// A music track.
    Track,
    /// An episode of a podcast.
    Podcast,
    /// Anything that cannot be played.
    NonPlayable,
}

/// The identifier of an item.
#[derive(Clone, Copy, Debug, PartialEq, Eq, Structural)]
pub struct MediaId {
    /// The number itself.
    pub id: u128,
    /// What it names.
    pub audio_type: AudioType,
}

/// The base-62 digit for a number below 62: `0` to `9`, `a` to `z`, `A` to `Z`.
pub open spec fn base62_digit(n: int) -> char {
    if n < 10 {
        ('0' as int + n) as char
    } else if n < 36 {
        ('a' as int + (n - 10)) as char
    } else {
        ('A' as int + (n - 36)) as char
    }
}

/// A number in base 62, as 22 digits, most significant first.
pub open spec fn base62(id: int) -> Seq<char> {
    Seq::new(22, |i: int| base62_digit((id / pow(62, (21 - i) as nat)) % 62))
}

/// The hexadecimal digit for a number below 16, in lower case.
pub open spec fn base16_digit(n: int) -> char {
    if n < 10 {
        ('0' as int + n) as char
    } else {
        ('a' as int + (n - 10)) as char
    }
}

/// Bytes in hexadecimal, two digits each.
pub open spec fn base16(bytes: Seq<u8>) -> Seq<char> {
    Seq::new(
        2 * bytes.len(),
        |i: int|
            if i % 2 == 0 {
                base16_digit(bytes[i / 2] as int / 16)
            } else {
                base16_digit(bytes[i / 2] as int % 16)
            },
    )
}

/// `SpotifyId::to_base62`: the 22 digits of the number in base 62. The digits are
/// ASCII, so the conversion to a string succeeds. What kind of item it names
/// makes no difference.
#[verifier::external_body]
fn spotify_id_to_base62(id: MediaId) -> (r: Option<String>)
    ensures
        r is Some,
        r->Some_0@ == base62(id.id as int),
{
    let audio_type = match id.audio_type {
        AudioType::Track => librespot::core::spotify_id::SpotifyAudioType::Track,
        AudioType::Podcast => librespot::core::spotify_id::SpotifyAudioType::Podcast,
        AudioType::NonPlayable => librespot::core::spotify_id::SpotifyAudioType::NonPlayable,
    };
    librespot::core::spotify_id::SpotifyId { id: id.id, audio_type }.to_base62().ok()
}

/// `FileId::to_base16`: the 40 hexadecimal digits of the identifier. The digits
/// are ASCII, so the conversion to a string succeeds.
#[verifier::external_body]
fn file_id_to_base16(bytes: [u8; 20]) -> (r: Option<String>)
    ensures
        r is Some,
        r->Some_0@ == base16(bytes@),
{
    librespot::core::spotify_id::FileId(bytes).to_base16().ok()
}

impl MediaId {
    /// The canonical printed form.
    pub fn to_base62(&self) -> (r: String)
        ensures
            r@ == base62(self.id as int),
    {
        match spotify_id_to_base62(*self) {
            Some(text) => text,
            None => String::new(),
        }
    }
}

/// The printed form of a cover image's identifier.
pub fn cover_to_base16(cover: [u8; 20]) -> (r: String)
    ensures
        r@ == base16(cover@),
{
    match file_id_to_base16(cover) {
        Some(text) => text,
        None => String::new(),
    }
}

/// The printed form tells any two identifiers apart.
pub proof fn law_base62_tells_ids_apart(a: u128, b: u128)
    requires
        base62(a as int) == base62(b as int),
    ensures
        a == b,
{
    reveal_with_fuel(pow, 23);
    assert(pow(62, 22) > u128::MAX);
    assert(a as int / pow(62, 22) == 0 && b as int / pow(62, 22) == 0) by {
        lemma_basic_div(a as int, pow(62, 22));
        lemma_basic_div(b as int, pow(62, 22));
    }
    lemma_quotients_agree(a as int, b as int, 22);
    assert(pow(62, 0) == 1);
}

/// Numbers with the same digits have the same quotients by every power of the base.
proof fn lemma_quotients_agree(a: int, b: int, steps: nat)
    requires
        0 <= a,
        0 <= b,
        base62(a) == base62(b),
        a / pow(62, 22) == b / pow(62, 22),
        steps <= 22,
    ensures
        a / pow(62, (22 - steps) as nat) == b / pow(62, (22 - steps) as nat),
    decreases steps,
{
    if steps > 0 {
        lemma_quotients_agree(a, b, (steps - 1) as nat);
        let k = (22 - steps) as nat;
        let unit = pow(62, k);
        lemma_pow_positive(62, k);
        assert(pow(62, k + 1) == unit * 62) by {
            reveal(pow);
            lemma_mul_is_commutative(unit, 62);
        }
        lemma_div_denominator(a, unit, 62);
        lemma_div_denominator(b, unit, 62);
        lemma_digits_differ((a / unit) % 62, (b / unit) % 62);
        assert(base62(a)[21 - k] == base62_digit((a / unit) % 62));
        assert(base62(b)[21 - k] == base62_digit((b / unit) % 62));
    }
}

/// Different numbers have different digits.
proof fn lemma_digits_differ(m: int, n: int)
    requires
        0 <= m < 62,
        0 <= n < 62,
    ensures
        base62_digit(m) == base62_digit(n) ==> m == n,
{
}

/// The printed form tells any two cover images apart.
pub proof fn law_base16_tells_covers_apart(a: Seq<u8>, b: Seq<u8>)
    requires
        base16(a) == base16(b),
    ensures
        a == b,
{
    assert(base16(a).len() == 2 * a.len() && base16(b).len() == 2 * b.len());
    assert forall|i: int| 0 <= i < a.len() implies a[i] == b[i] by {
        assert((2 * i) % 2 == 0 && (2 * i) / 2 == i);
        assert((2 * i + 1) % 2 == 1 && (2 * i + 1) / 2 == i);
        assert(base16(a)[2 * i] == base16_digit(a[i] as int / 16));
        assert(base16(b)[2 * i] == base16_digit(b[i] as int / 16));
        assert(base16(a)[2 * i + 1] == base16_digit(a[i] as int % 16));
        assert(base16(b)[2 * i + 1] == base16_digit(b[i] as int % 16));
    }
    assert(a =~= b);
}

/// The number that a base-62 or hexadecimal digit stands for.
pub open spec fn digit_value(c: char) -> int {
    if '0' <= c <= '9' {
        c as int - '0' as int
    } else if 'a' <= c <= 'z' {
        10 + (c as int - 'a' as int)
    } else {
        36 + (c as int - 'A' as int)
    }
}

/// The number that a row of base-62 digits stands for.
pub open spec fn base62_value(digits: Seq<char>) -> int
    decreases digits.len(),
{
    if digits.len() == 0 {
        0
    } else {
        62 * base62_value(digits.drop_last()) + digit_value(digits.last())
    }
}

/// The printed form has 22 digits, and reading them gives the identifier back.
pub proof fn law_base62_reads_back(id: u128)
    ensures
        base62(id as int).len() == 22,
        base62_value(base62(id as int)) == id,
{
    let printed = base62(id as int);
    reveal_with_fuel(pow, 23);
    assert(pow(62, 22) > u128::MAX);
    lemma_basic_div(id as int, pow(62, 22));
    lemma_leading_digits(id as int, 22);
    assert(printed.take(22) =~= printed);
    assert(pow(62, 0) == 1);
}

/// The first `k` digits stand for the number without the digits after them.
proof fn lemma_leading_digits(id: int, k: nat)
    requires
        0 <= id,
        id / pow(62, 22) == 0,
        k <= 22,
    ensures
        base62_value(base62(id).take(k as int)) == id / pow(62, (22 - k) as nat),
    decreases k,
{
    let leading = base62(id).take(k as int);
    if k == 0 {
        assert(leading.len() == 0);
    } else {
        let rest = (22 - k) as nat;
        let unit = pow(62, rest);
        lemma_leading_digits(id, (k - 1) as nat);
        lemma_pow_positive(62, rest);
        assert(pow(62, rest + 1) == unit * 62) by {
            reveal(pow);
            lemma_mul_is_commutative(unit, 62);
        }
        lemma_div_denominator(id, unit, 62);
        assert(leading.drop_last() =~= base62(id).take(k - 1));
        assert(leading.last() == base62_digit((id / unit) % 62));
        assert(digit_value(leading.last()) == (id / unit) % 62);
    }
}

/// The printed form of a cover image has two digits for each byte, and reading them
/// gives the byte back.
pub proof fn law_base16_reads_back(bytes: Seq<u8>)
    ensures
        base16(bytes).len() == 2 * bytes.len(),
        forall|i: int|
            0 <= i < bytes.len() ==> 16 * digit_value(base16(bytes)[2 * i]) + digit_value(
                base16(bytes)[2 * i + 1],
            ) == #[trigger] bytes[i],
{
    assert forall|i: int| 0 <= i < bytes.len() implies 16 * digit_value(base16(bytes)[2 * i])
        + digit_value(base16(bytes)[2 * i + 1]) == #[trigger] bytes[i] by {
        assert((2 * i) % 2 == 0 && (2 * i) / 2 == i);
        assert((2 * i + 1) % 2 == 1 && (2 * i + 1) / 2 == i);
        assert(base16(bytes)[2 * i] == base16_digit(bytes[i] as int / 16));
        assert(base16(bytes)[2 * i + 1] == base16_digit(bytes[i] as int % 16));
    }
}

} // verus!
