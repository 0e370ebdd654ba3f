//! Unified asset names and market lookup.
//!
//! Asset names come in three formats: `"BTC"` is a perpetual, `"PURR/USDC"`
//! is a spot pair, and `"xyz:BTC"` is a perpetual on the HIP3 DEX `xyz`.
//! Market metadata is supplied by the caller as plain name/index records;
//! fetching it from the exchange happens upstream.

use vstd::prelude::*;
use vstd::seq_lib::*;
use vstd::string::StrSliceExecFns;

verus! {

/// A perpetual market: its feed name and its asset index.
#[derive(Debug, Clone)]
pub struct PerpMarket {
    pub name: String,
    pub index: usize,
}

/// A spot market: its base and quote token names and its asset index.
#[derive(Debug, Clone)]
pub struct SpotMarket {
    pub base: String,
    pub quote: String,
    pub index: usize,
}

/// A parsed asset name.
#[derive(Debug, Clone)]
pub enum AssetSpec {
    /// Perpetual on the main DEX, e.g. `"BTC"`.
    Perp(String),
    /// Spot market, e.g. `"PURR/USDC"`.
    Spot(String, String),
    /// Perpetual on a HIP3 DEX, e.g. `"xyz:BTC"`.
    Hip3Perp(String, String),
}

/// The mathematical shape of an [`AssetSpec`].
pub enum AssetSpecV {
    Perp(Seq<char>),
    Spot(Seq<char>, Seq<char>),
    Hip3Perp(Seq<char>, Seq<char>),
}

impl View for AssetSpec {
    type V = AssetSpecV;

    open spec fn view(&self) -> AssetSpecV {
        match self {
            AssetSpec::Perp(s) => AssetSpecV::Perp(s@),
            AssetSpec::Spot(b, q) => AssetSpecV::Spot(b@, q@),
            AssetSpec::Hip3Perp(d, s) => AssetSpecV::Hip3Perp(d@, s@),
        }
    }
}

/// Where an asset name is split: at its first `/` it is a spot pair, else
/// at its first `:` it is a HIP3 perpetual, else it names a plain
/// perpetual.
pub open spec fn parse_asset_spec_at(s: Seq<char>) -> AssetSpecV {
    if s.contains('/') {
        let i = s.index_of_first('/')->Some_0;
        AssetSpecV::Spot(s.take(i), s.skip(i + 1))
    } else if s.contains(':') {
        let i = s.index_of_first(':')->Some_0;
        AssetSpecV::Hip3Perp(s.take(i), s.skip(i + 1))
    } else {
        AssetSpecV::Perp(s)
    }
}

/// Finds the first occurrence of `c` in `s`.
fn find_char(s: &str, c: char) -> (r: Option<usize>)
    ensures
        match r {
            Some(i) => i < s@.len() && s@.contains(c) && s@.index_of_first(c) == Some(i as int),
            None => !s@.contains(c),
        },
{
    let n = s.unicode_len();
    let mut i: usize = 0;
    while i < n
        invariant
            i <= n,
            n == s@.len(),
            forall|k: int| 0 <= k < i ==> s@[k] != c,
        decreases n - i,
    {
        if s.get_char(i) == c {
            proof {
                assert(s@.contains(c)) by {
                    assert(0 <= (i as int) && (i as int) < s@.len() && s@[i as int] == c);
                }
                s@.index_of_first_ensures(c);
                assert(s@.index_of_first(c) is Some);
                let first = s@.index_of_first(c)->Some_0;
                assert(first <= i as int) by {
                    if first > i as int {
                        assert(s@[i as int] != c);
                    }
                }
                assert(first == i as int);
            }
            return Some(i);
        }
        i += 1;
    }
    None
}

/// Parses a unified asset name: `BASE/QUOTE` is a spot pair, `dex:SYMBOL`
/// is a HIP3 perpetual, and anything else names a plain perpetual.
pub fn parse_asset_spec(asset: &str) -> (r: AssetSpec)
    ensures
        r@ == parse_asset_spec_at(asset@),
{
    let n = asset.unicode_len();
    if let Some(i) = find_char(asset, '/') {
        let base = asset.substring_char(0, i).to_owned();
        let quote = asset.substring_char(i + 1, n).to_owned();
        proof {
            assert(asset@.take(i as int) =~= asset@.subrange(0, i as int));
            assert(asset@.skip(i as int + 1) =~= asset@.subrange(i as int + 1, asset@.len() as int));
        }
        AssetSpec::Spot(base, quote)
    } else if let Some(i) = find_char(asset, ':') {
        let dex = asset.substring_char(0, i).to_owned();
        let symbol = asset.substring_char(i + 1, n).to_owned();
        proof {
            assert(asset@.take(i as int) =~= asset@.subrange(0, i as int));
            assert(asset@.skip(i as int + 1) =~= asset@.subrange(i as int + 1, asset@.len() as int));
        }
        AssetSpec::Hip3Perp(dex, symbol)
    } else {
        AssetSpec::Perp(asset.to_owned())
    }
}

/// The code point of `c` with an ASCII capital letter folded to its
/// small form.
pub open spec fn lower_code(c: char) -> u32 {
    if 65 <= c as u32 && c as u32 <= 90 {
        (c as u32 + 32) as u32
    } else {
        c as u32
    }
}

/// Equality of two names up to ASCII case.
pub open spec fn eq_ignore_case(a: Seq<char>, b: Seq<char>) -> bool {
    a.len() == b.len() && (forall|i: int| 0 <= i < a.len() ==> lower_code(a[i]) == lower_code(b[i]))
}

/// Compares two names ignoring ASCII case.
pub fn eq_ignore_ascii_case(a: &str, b: &str) -> (r: bool)
    ensures
        r == eq_ignore_case(a@, b@),
{
    let na = a.unicode_len();
    let nb = b.unicode_len();
    if na != nb {
        return false;
    }
    let mut i: usize = 0;
    while i < na
        invariant
            i <= na,
            na == a@.len(),
            na == b@.len(),
            forall|k: int| 0 <= k < i ==> lower_code(a@[k]) == lower_code(b@[k]),
        decreases na - i,
    {
        let ca = a.get_char(i) as u32;
        let cb = b.get_char(i) as u32;
        let la = if 65 <= ca && ca <= 90 {
            ca + 32
        } else {
            ca
        };
        let lb = if 65 <= cb && cb <= 90 {
            cb + 32
        } else {
            cb
        };
        if la != lb {
            assert(lower_code(a@[i as int]) != lower_code(b@[i as int]));
            return false;
        }
        i += 1;
    }
    true
}

/// Whether a perpetual market's feed name answers to `symbol`: either
/// the whole name matches up to ASCII case, or the name has the form
/// `dex:SYMBOL` and the part after the first `:` matches.
pub open spec fn perp_name_matches_at(name: Seq<char>, symbol: Seq<char>) -> bool {
    ||| eq_ignore_case(name, symbol)
    ||| (name.contains(':') && eq_ignore_case(
        name.skip(name.index_of_first(':')->Some_0 + 1),
        symbol,
    ))
}

/// Checks whether a perpetual market name matches the given symbol.
pub fn perp_name_matches(name: &str, symbol: &str) -> (r: bool)
    ensures
        r == perp_name_matches_at(name@, symbol@),
{
    if eq_ignore_ascii_case(name, symbol) {
        return true;
    }
    let n = name.unicode_len();
    if let Some(i) = find_char(name, ':') {
        let market_symbol = name.substring_char(i + 1, n).to_owned();
        proof {
            assert(name@.skip(i as int + 1) =~= name@.subrange(i as int + 1, name@.len() as int));
        }
        eq_ignore_ascii_case(market_symbol.as_str(), symbol)
    } else {
        false
    }
}

/// Finds the asset index of the first perpetual market whose name
/// answers to `symbol`; `None` exactly when no market matches.
pub fn find_perp_index(perps: &Vec<PerpMarket>, symbol: &str) -> (r: Option<usize>)
    ensures
        r is Some == exists|i: int|
            0 <= i < perps@.len() && perp_name_matches_at(#[trigger] perps@[i].name@, symbol@),
        match r {
            Some(idx) => exists|i: int|
                {
                    &&& 0 <= i < perps@.len()
                    &&& perp_name_matches_at(#[trigger] perps@[i].name@, symbol@)
                    &&& perps@[i].index == idx
                    &&& forall|j: int|
                        0 <= j < i ==> !perp_name_matches_at(#[trigger] perps@[j].name@, symbol@)
                },
            None => true,
        },
{
    let mut i: usize = 0;
    while i < perps.len()
        invariant
            i <= perps@.len(),
            forall|k: int| 0 <= k < i ==> !perp_name_matches_at(#[trigger] perps@[k].name@, symbol@),
        decreases perps@.len() - i,
    {
        if perp_name_matches(perps[i].name.as_str(), symbol) {
            return Some(perps[i].index);
        }
        i += 1;
    }
    None
}

/// Finds the asset index of the first spot market whose base and quote
/// names match up to ASCII case; `None` exactly when none does.
pub fn find_spot_index(spots: &Vec<SpotMarket>, base: &str, quote: &str) -> (r: Option<usize>)
    ensures
        r is Some == exists|i: int|
            0 <= i < spots@.len() && eq_ignore_case(#[trigger] spots@[i].base@, base@)
                && eq_ignore_case(spots@[i].quote@, quote@),
        match r {
            Some(idx) => exists|i: int|
                {
                    &&& 0 <= i < spots@.len()
                    &&& eq_ignore_case(#[trigger] spots@[i].base@, base@)
                    &&& eq_ignore_case(spots@[i].quote@, quote@)
                    &&& spots@[i].index == idx
                    &&& forall|j: int|
                        0 <= j < i ==> !(eq_ignore_case(#[trigger] spots@[j].base@, base@)
                            && eq_ignore_case(spots@[j].quote@, quote@))
                },
            None => true,
        },
{
    let mut i: usize = 0;
    while i < spots.len()
        invariant
            i <= spots@.len(),
            forall|k: int|
                0 <= k < i ==> !(eq_ignore_case(#[trigger] spots@[k].base@, base@)
                    && eq_ignore_case(spots@[k].quote@, quote@)),
        decreases spots@.len() - i,
    {
        if eq_ignore_ascii_case(spots[i].base.as_str(), base) && eq_ignore_ascii_case(
            spots[i].quote.as_str(),
            quote,
        ) {
            return Some(spots[i].index);
        }
        i += 1;
    }
    None
}

/// Finds the position of the first DEX whose name matches `name` up to
/// ASCII case; `None` exactly when no name in the list matches.
pub fn find_dex_index(dexs: &Vec<String>, name: &str) -> (r: Option<usize>)
    ensures
        r is Some == exists|i: int|
            0 <= i < dexs@.len() && eq_ignore_case(#[trigger] dexs@[i]@, name@),
        match r {
            Some(idx) => {
                &&& idx < dexs@.len()
                &&& eq_ignore_case(dexs@[idx as int]@, name@)
                &&& forall|j: int| 0 <= j < idx ==> !eq_ignore_case(#[trigger] dexs@[j]@, name@)
            },
            None => true,
        },
{
    let mut i: usize = 0;
    while i < dexs.len()
        invariant
            i <= dexs@.len(),
            forall|k: int| 0 <= k < i ==> !eq_ignore_case(#[trigger] dexs@[k]@, name@),
        decreases dexs@.len() - i,
    {
        if eq_ignore_ascii_case(dexs[i].as_str(), name) {
            return Some(i);
        }
        i += 1;
    }
    None
}

/// The decimal digits of `n`, most significant first.
pub open spec fn dec_digits(n: nat) -> Seq<char>
    decreases n,
{
    if n < 10 {
        seq![((48 + n) as u8) as char]
    } else {
        dec_digits(n / 10).push(((48 + n % 10) as u8) as char)
    }
}

/// Relies on `String::push`: appends one character at the end.
#[verifier::external_body]
fn push_char(s: &mut String, c: char)
    ensures
        final(s)@ == old(s)@ + seq![c],
{
    s.push(c);
}

/// Appends the decimal digits of `n` to `s`.
fn push_dec(s: &mut String, n: u64)
    ensures
        final(s)@ == old(s)@ + dec_digits(n as nat),
    decreases n,
{
    if n < 10 {
        push_char(s, (48 + n as u8) as char);
    } else {
        push_dec(s, n / 10);
        push_char(s, (48 + (n % 10) as u8) as char);
        proof {
            assert(final(s)@ =~= old(s)@ + dec_digits(n as nat));
        }
    }
}

/// The feed name of a spot market for subscriptions: `@` followed by the
/// market's index less the spot offset, in decimal.
pub open spec fn spot_coin_name(index: nat) -> Seq<char> {
    seq!['@'] + dec_digits((index - 10000) as nat)
}

/// Resolved subscription parameters: the feed name to subscribe with.
#[derive(Debug, Clone)]
pub struct ResolvedAsset {
    /// The coin name to use for subscriptions, e.g. `"BTC"` or `"@123"`.
    pub coin: String,
}

/// The feed name of the spot market with asset index `index`: spot
/// subscriptions use the `@`-prefixed offset index.
pub fn spot_subscription_coin(index: usize) -> (coin: String)
    requires
        index >= 10000,
    ensures
        coin@ == spot_coin_name(index as nat),
{
    let mut s = String::new();
    push_char(&mut s, '@');
    push_dec(&mut s, (index - 10000) as u64);
    proof {
        assert(s@ =~= spot_coin_name(index as nat));
    }
    s
}

/// Resolves a perpetual symbol to its subscription feed name: the name
/// of the first market that matches up to ASCII case, spelled as the
/// exchange spells it; `None` exactly when no market matches.
pub fn resolve_perp_subscription_coin(perps: &Vec<PerpMarket>, symbol: &str) -> (r: Option<
    ResolvedAsset,
>)
    ensures
        r is Some == exists|i: int|
            0 <= i < perps@.len() && eq_ignore_case(#[trigger] perps@[i].name@, symbol@),
        match r {
            Some(res) => exists|i: int|
                {
                    &&& 0 <= i < perps@.len()
                    &&& eq_ignore_case(#[trigger] perps@[i].name@, symbol@)
                    &&& res.coin@ == perps@[i].name@
                    &&& forall|j: int|
                        0 <= j < i ==> !eq_ignore_case(#[trigger] perps@[j].name@, symbol@)
                },
            None => true,
        },
{
    let mut i: usize = 0;
    while i < perps.len()
        invariant
            i <= perps@.len(),
            forall|k: int| 0 <= k < i ==> !eq_ignore_case(#[trigger] perps@[k].name@, symbol@),
        decreases perps@.len() - i,
    {
        if eq_ignore_ascii_case(perps[i].name.as_str(), symbol) {
            return Some(ResolvedAsset { coin: perps[i].name.clone() });
        }
        i += 1;
    }
    None
}

/// Resolves a spot pair to its subscription feed name, built from the
/// first matching market's index; `None` exactly when no market
/// matches. Spot asset indices carry the fixed offset.
pub fn resolve_spot_subscription_coin(spots: &Vec<SpotMarket>, base: &str, quote: &str) -> (r:
    Option<ResolvedAsset>)
    requires
        forall|i: int| 0 <= i < spots@.len() ==> (#[trigger] spots@[i].index) >= 10000,
    ensures
        r is Some == exists|i: int|
            0 <= i < spots@.len() && eq_ignore_case(#[trigger] spots@[i].base@, base@)
                && eq_ignore_case(spots@[i].quote@, quote@),
        match r {
            Some(res) => exists|i: int|
                {
                    &&& 0 <= i < spots@.len()
                    &&& eq_ignore_case(#[trigger] spots@[i].base@, base@)
                    &&& eq_ignore_case(spots@[i].quote@, quote@)
                    &&& res.coin@ == spot_coin_name(spots@[i].index as nat)
                    &&& forall|j: int|
                        0 <= j < i ==> !(eq_ignore_case(#[trigger] spots@[j].base@, base@)
                            && eq_ignore_case(spots@[j].quote@, quote@))
                },
            None => true,
        },
{
    let mut i: usize = 0;
    while i < spots.len()
        invariant
            i <= spots@.len(),
            forall|k: int| 0 <= k < spots@.len() ==> (#[trigger] spots@[k].index) >= 10000,
            forall|k: int|
                0 <= k < i ==> !(eq_ignore_case(#[trigger] spots@[k].base@, base@)
                    && eq_ignore_case(spots@[k].quote@, quote@)),
        decreases spots@.len() - i,
    {
        if eq_ignore_ascii_case(spots[i].base.as_str(), base) && eq_ignore_ascii_case(
            spots[i].quote.as_str(),
            quote,
        ) {
            let coin = spot_subscription_coin(spots[i].index);
            return Some(ResolvedAsset { coin });
        }
        i += 1;
    }
    None
}

} // verus!
