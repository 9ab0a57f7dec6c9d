//! Entity ids. Each id ends in a hash of all of its parts, so that parts
//! that slugify to nothing (Japanese names, for instance) still give
//! different ids; where some part has ASCII letters or digits, a readable
//! slug of the parts comes first.
use std::collections::hash_map::DefaultHasher;
use std::hash::Hasher;
use vstd::prelude::*;
use vstd::utf8::encode_utf8;
use vstd::std_specs::hash::DefaultHasherAdditionalSpecFns;
use crate::text::{has_prefix, chars_of, string_of, split_chars, join_chars, append_chars, split_on, joined};

verus! {

broadcast use vstd::string::group_string_axioms;

/// What `str::to_lowercase` returns for a text (Unicode lowercase mapping).
pub uninterp spec fn lowercase_of(s: Seq<char>) -> Seq<char>;

/// `str::to_lowercase`.
#[verifier::external_body]
fn lowercase(s: &str) -> (r: String)
    ensures
        r@ == lowercase_of(s@),
{
    s.to_lowercase()
}

pub open spec fn is_ascii_alnum(c: char) -> bool {
    ||| '0' <= c <= '9'
    ||| 'a' <= c <= 'z'
    ||| 'A' <= c <= 'Z'
}

/// A character of the slug alphabet stays, every other becomes `-`.
pub open spec fn dash_other(c: char) -> char {
    if is_ascii_alnum(c) { c } else { '-' }
}

/// Every character outside the slug alphabet replaced by `-`.
pub open spec fn dashed(s: Seq<char>) -> Seq<char> {
    s.map_values(|c: char| dash_other(c))
}

/// Keeps the non-empty pieces.
pub open spec fn non_empty() -> spec_fn(Seq<char>) -> bool {
    |p: Seq<char>| p.len() > 0
}

/// The slug of an already lowercased text: its runs of ASCII letters and
/// digits, joined by single dashes.
pub open spec fn slug_of(s: Seq<char>) -> Seq<char> {
    joined(split_on(dashed(s), '-').filter(non_empty()), seq!['-'])
}

/// The slug of a text: lowercase it, then keep its ASCII letters and digits.
pub open spec fn slugified(s: Seq<char>) -> Seq<char> {
    slug_of(lowercase_of(s))
}

pub fn slugify(s: &str) -> (r: String)
    ensures
        r@ == slugified(s@),
        forall|i: int| 0 <= i < r@.len() ==> {
            let c = #[trigger] r@[i];
            ('0' <= c && c <= '9') || ('a' <= c && c <= 'z') || ('A' <= c && c <= 'Z') || c == '-'
        },
{
    let lower = lowercase(s);
    let cs = chars_of(lower.as_str());
    let mut mapped: Vec<char> = Vec::new();
    let mut i: usize = 0;
    while i < cs.len()
        invariant
            i <= cs@.len(),
            mapped@ == dashed(cs@.take(i as int)),
        decreases cs@.len() - i,
    {
        let c = cs[i];
        let is_alnum = ('0' <= c && c <= '9') || ('a' <= c && c <= 'z') || ('A' <= c && c <= 'Z');
        if is_alnum {
            mapped.push(c);
        } else {
            mapped.push('-');
        }
        i += 1;
        assert(mapped@ =~= dashed(cs@.take(i as int)));
    }
    assert(cs@.take(cs@.len() as int) =~= cs@);
    assert(mapped@ == dashed(lowercase_of(s@)));
    let pieces = split_chars(mapped.as_slice(), '-');
    let ghost pviews = split_on(mapped@, '-');
    let mut kept: Vec<Vec<char>> = Vec::new();
    let mut k: usize = 0;
    while k < pieces.len()
        invariant
            k <= pieces@.len(),
            pieces@.len() == pviews.len(),
            forall|j: int| 0 <= j < pieces@.len() ==> #[trigger] pieces@[j]@ == pviews[j],
            kept@.map_values(|v: Vec<char>| v@) == pviews.take(k as int).filter(non_empty()),
        decreases pieces@.len() - k,
    {
        let ghost before = kept@.map_values(|v: Vec<char>| v@);
        proof {
            reveal_with_fuel(Seq::<_>::filter, 1);
            assert(pviews.take(k + 1).drop_last() =~= pviews.take(k as int));
            assert(pviews.take(k + 1).last() == pviews[k as int]);
        }
        assert(pieces@[k as int]@ == pviews[k as int]);
        if pieces[k].len() > 0 {
            let p = pieces[k].clone();
            assert(p@ == pviews[k as int]);
            kept.push(p);
            assert(non_empty()(pviews[k as int]));
            assert(kept@.map_values(|v: Vec<char>| v@) =~= before.push(pviews[k as int]));
        } else {
            assert(!non_empty()(pviews[k as int]));
        }
        k += 1;
    }
    assert(pviews.take(pieces@.len() as int) =~= pviews);
    let dash = vec!['-'];
    assert(dash@ =~= seq!['-']);
    let out = join_chars(&kept, dash.as_slice());
    let r = string_of(out.as_slice());
    proof {
        law_slug_characters(s@);
        assert(r@ == slugified(s@));
        assert forall|i: int| 0 <= i < r@.len() implies {
            let c = #[trigger] r@[i];
            ('0' <= c && c <= '9') || ('a' <= c && c <= 'z') || ('A' <= c && c <= 'Z') || c == '-'
        } by {
            assert(r@[i] == slugified(s@)[i]);
        }
    }
    r
}

/// The lowercase hexadecimal digit for `d < 16`.
pub open spec fn hex_digit(d: nat) -> char {
    if d < 10 {
        (48 + d) as char
    } else {
        (87 + d) as char
    }
}

/// The last `n` hexadecimal digits of `h`, zero-padded, most significant first.
pub open spec fn hex_digits(h: nat, n: nat) -> Seq<char>
    decreases n,
{
    if n == 0 {
        Seq::<char>::empty()
    } else {
        hex_digits(h / 16, (n - 1) as nat).push(hex_digit(h % 16))
    }
}

/// `h` as sixteen lowercase hexadecimal digits (`{:016x}`).
pub open spec fn hex16(h: u64) -> Seq<char> {
    hex_digits(h as nat, 16)
}

fn hex_digit_char(d: u64) -> (c: char)
    requires
        d < 16,
    ensures
        c == hex_digit(d as nat),
{
    if d < 10 {
        ((48 + d) as u8) as char
    } else {
        ((87 + d) as u8) as char
    }
}

fn hex_digits_of(h: u64, n: usize) -> (r: Vec<char>)
    ensures
        r@ == hex_digits(h as nat, n as nat),
        r@.len() == n,
    decreases n,
{
    if n == 0 {
        Vec::new()
    } else {
        let mut r = hex_digits_of(h / 16, n - 1);
        r.push(hex_digit_char(h % 16));
        r
    }
}

/// The bytes written to the hasher for one part of an id: the part's UTF-8
/// bytes and the `0xff` that `str`'s `Hash` adds, then a `0` separator.
pub open spec fn part_writes(p: Seq<char>) -> Seq<Seq<u8>> {
    seq![encode_utf8(p), seq![0xffu8], seq![0u8]]
}

/// Everything written to the hasher for the parts of an id, in order.
pub open spec fn hash_writes(parts: Seq<Seq<char>>) -> Seq<Seq<u8>>
    decreases parts.len(),
{
    if parts.len() == 0 {
        Seq::<Seq<u8>>::empty()
    } else {
        hash_writes(parts.drop_last()) + part_writes(parts.last())
    }
}

/// The hash of an id's parts (`DefaultHasher`, new, over `hash_writes`).
pub open spec fn id_hash(parts: Seq<Seq<char>>) -> u64 {
    DefaultHasher::spec_finish(hash_writes(parts))
}

/// The non-empty slugs of the parts, in order.
pub open spec fn part_slugs(parts: Seq<Seq<char>>) -> Seq<Seq<char>> {
    parts.map_values(|p: Seq<char>| slugified(p)).filter(non_empty())
}

/// The id for `parts` with hash `hash`: the slugs joined by `--`, or `prefix`
/// where no part has a slug, then `-` and the hash in sixteen hex digits.
pub open spec fn id_text(parts: Seq<Seq<char>>, prefix: Seq<char>, hash: u64) -> Seq<char> {
    let slugs = part_slugs(parts);
    let head = if slugs.len() == 0 { prefix } else { joined(slugs, seq!['-', '-']) };
    head + seq!['-'] + hex16(hash)
}

/// The id that `make_id` gives.
pub open spec fn id_of(parts: Seq<Seq<char>>, prefix: Seq<char>) -> Seq<char> {
    id_text(parts, prefix, id_hash(parts))
}

pub open spec fn texts_of(parts: Seq<&str>) -> Seq<Seq<char>> {
    parts.map_values(|p: &str| p@)
}

/// The hash of the parts, as `make_id` computes it.
pub fn hash_parts(parts: &[&str]) -> (h: u64)
    ensures
        h == id_hash(texts_of(parts@)),
{
    let ghost texts = texts_of(parts@);
    let mut hasher = DefaultHasher::new();
    let marker: [u8; 1] = [0xff];
    let separator: [u8; 1] = [0];
    let mut i: usize = 0;
    while i < parts.len()
        invariant
            i <= parts@.len(),
            texts == texts_of(parts@),
            marker@ == seq![0xffu8],
            separator@ == seq![0u8],
            hasher@ == hash_writes(texts.take(i as int)),
        decreases parts@.len() - i,
    {
        let part: &str = parts[i];
        hasher.write(part.as_bytes());
        hasher.write(&marker);
        hasher.write(&separator);
        proof {
            assert(texts.take(i + 1).drop_last() =~= texts.take(i as int));
            assert(texts[i as int] == part@);
            assert(hasher@ =~= hash_writes(texts.take(i + 1)));
        }
        i += 1;
    }
    assert(texts.take(parts@.len() as int) =~= texts);
    hasher.finish()
}

/// The id for `parts` with the given hash (see `id_text`).
pub fn make_id_with_hash(parts: &[&str], prefix: &str, hash: u64) -> (id: String)
    ensures
        id@ == id_text(texts_of(parts@), prefix@, hash),
{
    let ghost texts = texts_of(parts@);
    let ghost all_slugs = texts.map_values(|p: Seq<char>| slugified(p));
    let mut slugs: Vec<Vec<char>> = Vec::new();
    let mut i: usize = 0;
    while i < parts.len()
        invariant
            i <= parts@.len(),
            texts == texts_of(parts@),
            all_slugs == texts.map_values(|p: Seq<char>| slugified(p)),
            slugs@.map_values(|v: Vec<char>| v@) == all_slugs.take(i as int).filter(non_empty()),
        decreases parts@.len() - i,
    {
        let ghost before = slugs@.map_values(|v: Vec<char>| v@);
        let slug = slugify(parts[i]);
        let cs = chars_of(slug.as_str());
        proof {
            reveal_with_fuel(Seq::<_>::filter, 1);
            assert(all_slugs.take(i + 1).drop_last() =~= all_slugs.take(i as int));
            assert(all_slugs.take(i + 1).last() == all_slugs[i as int]);
            assert(all_slugs[i as int] == cs@);
        }
        if cs.len() > 0 {
            slugs.push(cs);
            assert(non_empty()(all_slugs[i as int]));
            assert(slugs@.map_values(|v: Vec<char>| v@) =~= before.push(all_slugs[i as int]));
        } else {
            assert(!non_empty()(all_slugs[i as int]));
        }
        i += 1;
    }
    assert(all_slugs.take(parts@.len() as int) =~= all_slugs);
    let mut out: Vec<char>;
    if slugs.len() == 0 {
        out = chars_of(prefix);
    } else {
        let double_dash = vec!['-', '-'];
        assert(double_dash@ =~= seq!['-', '-']);
        out = join_chars(&slugs, double_dash.as_slice());
    }
    out.push('-');
    let digits = hex_digits_of(hash, 16);
    append_chars(&mut out, digits.as_slice());
    string_of(out.as_slice())
}

/// An id for `parts`: a readable slug of them (or `prefix` where they have
/// none), a dash, and sixteen hex digits of a hash of all of the parts.
pub fn make_id(parts: &[&str], prefix: &str) -> (id: String)
    ensures
        id@ == id_of(texts_of(parts@), prefix@),
{
    let hash = hash_parts(parts);
    make_id_with_hash(parts, prefix, hash)
}

/// Fills `buf` from the operating system's random source (`getrandom::getrandom`);
/// `false` where that source failed. Nothing is stated of the bytes.
#[verifier::external_body]
fn os_random_bytes(buf: &mut Vec<u8>) -> (ok: bool)
    ensures
        final(buf)@.len() == old(buf)@.len(),
{
    getrandom::getrandom(buf.as_mut_slice()).is_ok()
}

/// Bytes as lowercase hexadecimal, two digits per byte.
pub open spec fn hex_of_bytes(b: Seq<u8>) -> Seq<char>
    decreases b.len(),
{
    if b.len() == 0 {
        Seq::<char>::empty()
    } else {
        hex_of_bytes(b.drop_last()) + hex_digits(b.last() as nat, 2)
    }
}

/// The token text for the given random bytes.
pub fn token_from_bytes(bytes: &[u8]) -> (t: String)
    ensures
        t@ == hex_of_bytes(bytes@),
{
    let mut out: Vec<char> = Vec::new();
    let mut i: usize = 0;
    while i < bytes.len()
        invariant
            i <= bytes@.len(),
            out@ == hex_of_bytes(bytes@.take(i as int)),
        decreases bytes@.len() - i,
    {
        let digits = hex_digits_of(bytes[i] as u64, 2);
        append_chars(&mut out, digits.as_slice());
        assert(bytes@.take(i + 1).drop_last() =~= bytes@.take(i as int));
        i += 1;
    }
    assert(bytes@.take(bytes@.len() as int) =~= bytes@);
    string_of(out.as_slice())
}

pub proof fn lemma_hex_of_bytes_len(b: Seq<u8>)
    ensures
        hex_of_bytes(b).len() == 2 * b.len(),
    decreases b.len(),
{
    if b.len() > 0 {
        lemma_hex_of_bytes_len(b.drop_last());
        lemma_hex_digits_len(b.last() as nat, 2);
    }
}

proof fn lemma_hex_pair_injective(x: u8, y: u8)
    requires
        hex_digits(x as nat, 2) == hex_digits(y as nat, 2),
    ensures
        x == y,
{
    reveal_with_fuel(hex_digits, 3);
    let dx = hex_digits(x as nat, 2);
    let dy = hex_digits(y as nat, 2);
    assert(hex_digits(x as nat / 16, 1) =~= seq![hex_digit((x as nat / 16) % 16)]);
    assert(hex_digits(y as nat / 16, 1) =~= seq![hex_digit((y as nat / 16) % 16)]);
    assert(dx[0] == hex_digit((x as nat / 16) % 16));
    assert(dx[1] == hex_digit(x as nat % 16));
    assert(dy[0] == hex_digit((y as nat / 16) % 16));
    assert(dy[1] == hex_digit(y as nat % 16));
    lemma_hex_digit_injective((x as nat / 16) % 16, (y as nat / 16) % 16);
    lemma_hex_digit_injective(x as nat % 16, y as nat % 16);
}

proof fn lemma_hex_digit_injective(d: nat, e: nat)
    requires
        d < 16,
        e < 16,
        hex_digit(d) == hex_digit(e),
    ensures
        d == e,
{
    assert(hex_digit(d) as u32 == if d < 10 { 48 + d } else { 87 + d });
    assert(hex_digit(e) as u32 == if e < 10 { 48 + e } else { 87 + e });
}

/// Hex text of equally many bytes determines the bytes: different token bytes
/// give different tokens.
pub proof fn law_hex_of_bytes_injective(a: Seq<u8>, b: Seq<u8>)
    requires
        a.len() == b.len(),
        hex_of_bytes(a) == hex_of_bytes(b),
    ensures
        a == b,
    decreases a.len(),
{
    if a.len() > 0 {
        lemma_hex_of_bytes_len(a.drop_last());
        lemma_hex_of_bytes_len(b.drop_last());
        lemma_hex_digits_len(a.last() as nat, 2);
        lemma_hex_digits_len(b.last() as nat, 2);
        let ha = hex_of_bytes(a);
        let n = 2 * (a.len() - 1);
        assert(ha.subrange(0, n) =~= hex_of_bytes(a.drop_last()));
        assert(hex_of_bytes(b).subrange(0, n) =~= hex_of_bytes(b.drop_last()));
        assert(ha.subrange(n, n + 2) =~= hex_digits(a.last() as nat, 2));
        assert(hex_of_bytes(b).subrange(n, n + 2) =~= hex_digits(b.last() as nat, 2));
        law_hex_of_bytes_injective(a.drop_last(), b.drop_last());
        lemma_hex_pair_injective(a.last(), b.last());
        assert(a =~= a.drop_last().push(a.last()));
        assert(b =~= b.drop_last().push(b.last()));
    }
}

/// Number of random bytes in a token.
pub const TOKEN_BYTES: usize = 16;

/// A fresh random token: sixteen bytes from the operating system as 32
/// lowercase hex digits; `None` where the random source failed.
pub fn make_token() -> (t: Option<String>)
    ensures
        t matches Some(t) ==> exists|b: Seq<u8>| b.len() == TOKEN_BYTES && t@ == hex_of_bytes(b),
        t matches Some(t) ==> t@.len() == 2 * TOKEN_BYTES,
{
    let mut buf: Vec<u8> = vec![0u8; TOKEN_BYTES];
    if !os_random_bytes(&mut buf) {
        return None;
    }
    let t = token_from_bytes(buf.as_slice());
    assert(buf@.len() == TOKEN_BYTES);
    proof { lemma_hex_of_bytes_len(buf@); }
    Some(t)
}

/// Equal parts and prefixes give equal ids.
pub proof fn law_make_id_is_deterministic(
    parts1: Seq<Seq<char>>,
    prefix1: Seq<char>,
    parts2: Seq<Seq<char>>,
    prefix2: Seq<char>,
)
    requires
        parts1 == parts2,
        prefix1 == prefix2,
    ensures
        id_of(parts1, prefix1) == id_of(parts2, prefix2),
{
}

pub proof fn lemma_hex_digits_len(h: nat, n: nat)
    ensures
        hex_digits(h, n).len() == n,
    decreases n,
{
    if n > 0 {
        lemma_hex_digits_len(h / 16, (n - 1) as nat);
    }
}

/// Every id ends in a dash and the sixteen hex digits of the hash of its parts.
pub proof fn law_id_ends_with_hash(parts: Seq<Seq<char>>, prefix: Seq<char>)
    ensures
        ({
            let id = id_of(parts, prefix);
            &&& id.len() >= 17
            &&& id.subrange(id.len() - 17, id.len() as int) == seq!['-'] + hex16(id_hash(parts))
        }),
{
    lemma_hex_digits_len(id_hash(parts) as nat, 16);
    let slugs = part_slugs(parts);
    let head = if slugs.len() == 0 { prefix } else { joined(slugs, seq!['-', '-']) };
    let id = id_of(parts, prefix);
    assert(id == head + seq!['-'] + hex16(id_hash(parts)));
    assert(id.subrange(id.len() - 17, id.len() as int) =~= seq!['-'] + hex16(id_hash(parts)));
}

/// Where some part has ASCII letters or digits, the id starts with the
/// parts' slugs joined by `--`, then a dash.
pub proof fn law_readable_slug_prefix(parts: Seq<Seq<char>>, prefix: Seq<char>)
    requires
        part_slugs(parts).len() > 0,
    ensures
        has_prefix(id_of(parts, prefix), joined(part_slugs(parts), seq!['-', '-']) + seq!['-']),
{
    let p = joined(part_slugs(parts), seq!['-', '-']) + seq!['-'];
    let id = id_of(parts, prefix);
    assert(id.take(p.len() as int) =~= p);
}

/// Where no part has a slug, the id starts with the prefix and a dash.
pub proof fn law_prefix_fallback(parts: Seq<Seq<char>>, prefix: Seq<char>)
    requires
        part_slugs(parts).len() == 0,
    ensures
        has_prefix(id_of(parts, prefix), prefix + seq!['-']),
{
    let p = prefix + seq!['-'];
    let id = id_of(parts, prefix);
    assert(id.take(p.len() as int) =~= p);
}

/// A readable slug: ASCII letters and digits in runs joined by single dashes,
/// with no dash first or last.
pub open spec fn is_readable_slug(t: Seq<char>) -> bool {
    &&& forall|i: int| 0 <= i < t.len() ==> is_ascii_alnum(#[trigger] t[i]) || t[i] == '-'
    &&& t.len() > 0 ==> is_ascii_alnum(t[0]) && is_ascii_alnum(t.last())
    &&& forall|i: int| 0 <= i < t.len() - 1 ==> !(#[trigger] t[i] == '-' && t[i + 1] == '-')
}

pub open spec fn all_alnum(p: Seq<char>) -> bool {
    forall|k: int| 0 <= k < p.len() ==> is_ascii_alnum(#[trigger] p[k])
}

proof fn lemma_pieces_of_dashed_text(t: Seq<char>)
    requires
        forall|i: int| 0 <= i < t.len() ==> is_ascii_alnum(#[trigger] t[i]) || t[i] == '-',
    ensures
        forall|j: int| 0 <= j < split_on(t, '-').len() ==> all_alnum(#[trigger] split_on(t, '-')[j]),
    decreases t.len(),
{
    if t.len() > 0 {
        let u = t.drop_last();
        assert forall|i: int| 0 <= i < u.len() implies is_ascii_alnum(#[trigger] u[i]) || u[i] == '-' by {
            assert(u[i] == t[i]);
        }
        lemma_pieces_of_dashed_text(u);
        crate::text::lemma_split_on_nonempty(u, '-');
        let pieces = split_on(u, '-');
        let c = t.last();
        assert(is_ascii_alnum(c) || c == '-');
        if c != '-' {
            let grown = pieces.last().push(c);
            assert(all_alnum(pieces.last()));
            assert(all_alnum(grown)) by {
                assert forall|k: int| 0 <= k < grown.len() implies is_ascii_alnum(#[trigger] grown[k]) by {
                    if k < pieces.last().len() {
                        assert(grown[k] == pieces.last()[k]);
                    }
                }
            }
        }
    }
}

proof fn lemma_joined_words(items: Seq<Seq<char>>)
    requires
        forall|j: int| 0 <= j < items.len() ==> (#[trigger] items[j]).len() > 0 && all_alnum(items[j]),
    ensures
        is_readable_slug(joined(items, seq!['-'])),
    decreases items.len(),
{
    if items.len() == 1 {
        let w = items[0];
        assert(joined(items, seq!['-']) == w);
        assert(all_alnum(w));
    } else if items.len() > 1 {
        let front = items.drop_last();
        assert forall|j: int| 0 <= j < front.len() implies (#[trigger] front[j]).len() > 0 && all_alnum(front[j]) by {
            assert(front[j] == items[j]);
        }
        lemma_joined_words(front);
        let a = joined(front, seq!['-']);
        let w = items.last();
        assert(items[items.len() - 1] == w);
        assert(all_alnum(w) && w.len() > 0);
        let t = a + seq!['-'] + w;
        assert(joined(items, seq!['-']) == t);
        lemma_joined_nonempty(front);
        assert forall|i: int| 0 <= i < t.len() implies is_ascii_alnum(#[trigger] t[i]) || t[i] == '-' by {
            if i < a.len() {
                assert(t[i] == a[i]);
            } else if i == a.len() {
            } else {
                assert(t[i] == w[i - a.len() - 1]);
            }
        }
        assert(t[0] == a[0]);
        assert(t.last() == w.last());
        assert(is_ascii_alnum(w[w.len() - 1]));
        assert forall|i: int| 0 <= i < t.len() - 1 implies !(#[trigger] t[i] == '-' && t[i + 1] == '-') by {
            if i < a.len() - 1 {
                assert(t[i] == a[i] && t[i + 1] == a[i + 1]);
            } else if i == a.len() - 1 {
                assert(t[i] == a.last());
            } else if i == a.len() {
                assert(t[i + 1] == w[0]);
            } else {
                assert(t[i] == w[i - a.len() - 1]);
            }
        }
    }
}

proof fn lemma_joined_nonempty(items: Seq<Seq<char>>)
    requires
        items.len() > 0,
        forall|j: int| 0 <= j < items.len() ==> (#[trigger] items[j]).len() > 0,
    ensures
        joined(items, seq!['-']).len() > 0,
    decreases items.len(),
{
    if items.len() == 1 {
        assert(items[0].len() > 0);
    } else {
        assert(items[items.len() - 1].len() > 0);
    }
}

/// Every slug is readable: ASCII letters and digits in runs joined by single
/// dashes, with no dash first or last.
pub proof fn law_slug_is_readable(s: Seq<char>)
    ensures
        is_readable_slug(slugified(s)),
{
    let t = dashed(lowercase_of(s));
    assert forall|i: int| 0 <= i < t.len() implies is_ascii_alnum(#[trigger] t[i]) || t[i] == '-' by {}
    lemma_pieces_of_dashed_text(t);
    let pieces = split_on(t, '-');
    let words = pieces.filter(non_empty());
    assert forall|j: int| 0 <= j < words.len() implies (#[trigger] words[j]).len() > 0 && all_alnum(words[j]) by {
        pieces.lemma_filter_pred(non_empty(), j);
        assert(words.contains(words[j]));
        pieces.lemma_filter_contains_rev(non_empty(), words[j]);
        let k = choose|k: int| 0 <= k < pieces.len() && pieces[k] == words[j];
        assert(all_alnum(pieces[k]));
    }
    lemma_joined_words(words);
}


/// A slug holds only the ASCII digits, the ASCII letters and `-`: every other
/// character (`_`, spaces, punctuation, Japanese text) only separates words.
pub proof fn law_slug_characters(s: Seq<char>)
    ensures
        forall|i: int| 0 <= i < slugified(s).len() ==> {
            let c = #[trigger] slugified(s)[i];
            ('0' <= c && c <= '9') || ('a' <= c && c <= 'z') || ('A' <= c && c <= 'Z') || c == '-'
        },
{
    law_slug_is_readable(s);
}

} // verus!
