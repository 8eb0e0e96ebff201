//! Assets, coins and pair types, and the checks made on them.
use vstd::prelude::*;
use vstd::string::*;
use vstd::utf8::encode_utf8;
use crate::error::{StdError, generic_text};

verus! {

/// The UTF-8 bytes of a string.
pub open spec fn utf8(s: Seq<char>) -> Seq<u8> {
    encode_utf8(s)
}

/// The UTF-8 bytes of `s`, as a vector.
pub fn string_bytes(s: &String) -> (b: Vec<u8>)
    ensures
        b@ == utf8(s@),
{
    vstd::slice::slice_to_vec(s.as_str().as_bytes())
}

/// An asset that a pair trades: a CW20 token contract or a native denomination.
#[derive(PartialEq, Eq, Debug)]
pub enum AssetInfo {
    Token { contract_addr: String },
    NativeToken { denom: String },
}

/// An amount of an asset.
#[derive(PartialEq, Eq, Debug)]
pub struct Asset {
    pub info: AssetInfo,
    pub amount: u128,
}

/// An amount of a native denomination, as sent along with a message.
#[derive(PartialEq, Eq, Debug)]
pub struct Coin {
    pub denom: String,
    pub amount: u128,
}

/// The type of a pair: constant product, stable swap, or a named custom type.
#[derive(PartialEq, Eq, Debug)]
pub enum PairType {
    Xyk,
    Stable,
    Custom(String),
}

/// The text that names an asset: its contract address or its denomination.
pub open spec fn asset_name(a: AssetInfo) -> Seq<char> {
    match a {
        AssetInfo::Token { contract_addr } => contract_addr@,
        AssetInfo::NativeToken { denom } => denom@,
    }
}

/// The bytes by which an asset is keyed and sorted.
pub open spec fn asset_bytes(a: AssetInfo) -> Seq<u8> {
    utf8(asset_name(a))
}

/// The text of a pair type.
pub open spec fn pair_type_text(p: PairType) -> Seq<char> {
    match p {
        PairType::Xyk => "xyk"@,
        PairType::Stable => "stable"@,
        PairType::Custom(name) => "custom-"@ + name@,
    }
}

/// ASCII lower case of one byte.
pub open spec fn lower_byte(b: u8) -> u8 {
    if 65 <= b <= 90 {
        (b + 32) as u8
    } else {
        b
    }
}

/// ASCII lower case of a byte string.
pub open spec fn lower_bytes(s: Seq<u8>) -> Seq<u8> {
    s.map_values(|b: u8| lower_byte(b))
}

/// Two assets are the same up to ASCII letter case: same kind, and names that
/// match when upper-case ASCII letters are taken as lower case.
pub open spec fn same_asset_ignoring_case(a: AssetInfo, b: AssetInfo) -> bool {
    &&& (a is Token) == (b is Token)
    &&& lower_bytes(asset_bytes(a)) == lower_bytes(asset_bytes(b))
}

/// A byte that a denomination may hold after its first character.
pub open spec fn denom_tail_byte(b: u8) -> bool {
    ||| 48 <= b <= 57
    ||| 65 <= b <= 90
    ||| 97 <= b <= 122
    ||| b == 47
    ||| b == 58
    ||| b == 46
    ||| b == 95
    ||| b == 45
}

/// An ASCII letter.
pub open spec fn alpha_byte(b: u8) -> bool {
    65 <= b <= 90 || 97 <= b <= 122
}

/// The message of the error that a denomination check gives, if any.
pub open spec fn denom_error(denom: Seq<char>) -> Option<Seq<char>> {
    let b = utf8(denom);
    if b.len() < 3 || b.len() > 128 {
        Some("Invalid denom length [3,128]: "@ + denom)
    } else if !alpha_byte(b[0]) {
        Some("First character is not ASCII alphabetic: "@ + denom)
    } else if exists|i: int| 1 <= i < b.len() && !denom_tail_byte(#[trigger] b[i]) {
        Some("Not all characters are ASCII alphanumeric or one of:  /  :  .  _  -: "@ + denom)
    } else {
        None
    }
}

/// Checks a native denomination: 3 to 128 bytes, an ASCII letter first, then
/// ASCII letters, digits, or one of `/ : . _ -`.
pub fn validate_native_denom(denom: &String) -> (r: Result<(), StdError>)
    ensures
        match denom_error(denom@) {
            None => r is Ok,
            Some(msg) => r matches Err(e) && e.text@ == generic_text(msg),
        },
{
    let b = string_bytes(denom);
    if b.len() < 3 || b.len() > 128 {
        let mut msg = String::from_str("Invalid denom length [3,128]: ");
        msg.append(denom.as_str());
        proof { reveal_strlit("Invalid denom length [3,128]: "); }
        return Err(StdError::generic_err(msg));
    }
    let first = b[0];
    if !((65 <= first && first <= 90) || (97 <= first && first <= 122)) {
        let mut msg = String::from_str("First character is not ASCII alphabetic: ");
        msg.append(denom.as_str());
        return Err(StdError::generic_err(msg));
    }
    let mut i: usize = 1;
    while i < b.len()
        invariant
            1 <= i <= b@.len(),
            3 <= b@.len() <= 128,
            alpha_byte(b@[0]),
            b@ == utf8(denom@),
            forall|k: int| 1 <= k < i ==> denom_tail_byte(#[trigger] b@[k]),
        decreases b.len() - i,
    {
        let c = b[i];
        if !((48 <= c && c <= 57) || (65 <= c && c <= 90) || (97 <= c && c <= 122) || c == 47
            || c == 58 || c == 46 || c == 95 || c == 45) {
            let mut msg = String::from_str(
                "Not all characters are ASCII alphanumeric or one of:  /  :  .  _  -: ",
            );
            msg.append(denom.as_str());
            assert(!denom_tail_byte(utf8(denom@)[i as int]));
            return Err(StdError::generic_err(msg));
        }
        i = i + 1;
    }
    assert(forall|k: int| 1 <= k < utf8(denom@).len() ==> denom_tail_byte(#[trigger] utf8(denom@)[k]));
    Ok(())
}

/// ASCII lower case of one byte.
fn to_lower(b: u8) -> (r: u8)
    ensures
        r == lower_byte(b),
{
    if 65 <= b && b <= 90 {
        b + 32
    } else {
        b
    }
}

/// Whether two byte strings match up to ASCII letter case.
fn bytes_eq_ignoring_case(a: &Vec<u8>, b: &Vec<u8>) -> (r: bool)
    ensures
        r == (lower_bytes(a@) == lower_bytes(b@)),
{
    if a.len() != b.len() {
        proof {
            if lower_bytes(a@) == lower_bytes(b@) {
                assert(lower_bytes(a@).len() == a@.len());
            }
        }
        return false;
    }
    let mut i: usize = 0;
    while i < a.len()
        invariant
            i <= a@.len(),
            a@.len() == b@.len(),
            forall|k: int| 0 <= k < i ==> lower_byte(#[trigger] a@[k]) == lower_byte(b@[k]),
        decreases a.len() - i,
    {
        if to_lower(a[i]) != to_lower(b[i]) {
            proof {
                if lower_bytes(a@) == lower_bytes(b@) {
                    assert(lower_bytes(a@)[i as int] == lower_bytes(b@)[i as int]);
                }
            }
            return false;
        }
        i = i + 1;
    }
    assert(lower_bytes(a@) =~= lower_bytes(b@));
    true
}

impl AssetInfo {
    /// The text that names this asset.
    pub fn name(&self) -> (s: &String)
        ensures
            s@ == asset_name(*self),
    {
        match self {
            AssetInfo::Token { contract_addr } => contract_addr,
            AssetInfo::NativeToken { denom } => denom,
        }
    }

    /// The asset's name as displayed: its contract address or its denomination.
    pub fn to_string(&self) -> (s: String)
        ensures
            s@ == asset_name(*self),
    {
        self.name().clone()
    }

    /// The bytes by which the asset is keyed and sorted.
    pub fn as_bytes(&self) -> (b: Vec<u8>)
        ensures
            b@ == asset_bytes(*self),
    {
        string_bytes(self.name())
    }

    /// Whether this asset and `other` are the same up to ASCII letter case.
    pub fn case_insensitive_eq(&self, other: &AssetInfo) -> (r: bool)
        ensures
            r == same_asset_ignoring_case(*self, *other),
    {
        let same_kind = match (self, other) {
            (AssetInfo::Token { .. }, AssetInfo::Token { .. }) => true,
            (AssetInfo::NativeToken { .. }, AssetInfo::NativeToken { .. }) => true,
            _ => false,
        };
        if !same_kind {
            return false;
        }
        bytes_eq_ignoring_case(&self.as_bytes(), &other.as_bytes())
    }

    /// A copy of this asset.
    pub fn copy(&self) -> (r: AssetInfo)
        ensures
            r == *self,
    {
        match self {
            AssetInfo::Token { contract_addr } => AssetInfo::Token {
                contract_addr: contract_addr.clone(),
            },
            AssetInfo::NativeToken { denom } => AssetInfo::NativeToken { denom: denom.clone() },
        }
    }
}

impl PairType {
    /// The pair type's text: `xyk`, `stable`, or `custom-` and the custom name.
    pub fn to_string(&self) -> (s: String)
        ensures
            s@ == pair_type_text(*self),
    {
        match self {
            PairType::Xyk => {
                proof { reveal_strlit("xyk"); }
                String::from_str("xyk")
            },
            PairType::Stable => {
                proof { reveal_strlit("stable"); }
                String::from_str("stable")
            },
            PairType::Custom(name) => {
                proof { reveal_strlit("custom-"); }
                let mut s = String::from_str("custom-");
                s.append(name.as_str());
                s
            },
        }
    }

    /// A copy of this pair type.
    pub fn copy(&self) -> (r: PairType)
        ensures
            r == *self,
    {
        match self {
            PairType::Xyk => PairType::Xyk,
            PairType::Stable => PairType::Stable,
            PairType::Custom(name) => PairType::Custom(name.clone()),
        }
    }
}

impl Coin {
    /// A copy of this coin.
    pub fn copy(&self) -> (r: Coin)
        ensures
            r == *self,
    {
        Coin { denom: self.denom.clone(), amount: self.amount }
    }
}

impl Asset {
    /// A copy of this asset amount.
    pub fn copy(&self) -> (r: Asset)
        ensures
            r == *self,
    {
        Asset { info: self.info.copy(), amount: self.amount }
    }
}

/// A copy of a list of assets.
pub fn copy_asset_infos(v: &Vec<AssetInfo>) -> (r: Vec<AssetInfo>)
    ensures
        r@ == v@,
{
    let mut r: Vec<AssetInfo> = Vec::new();
    let mut i: usize = 0;
    while i < v.len()
        invariant
            i <= v@.len(),
            r@ == v@.take(i as int),
        decreases v.len() - i,
    {
        r.push(v[i].copy());
        assert(v@.take(i + 1) =~= v@.take(i as int).push(v@[i as int]));
        i = i + 1;
    }
    assert(v@.take(v@.len() as int) =~= v@);
    r
}

/// A copy of a list of coins.
pub fn copy_coins(v: &Vec<Coin>) -> (r: Vec<Coin>)
    ensures
        r@ == v@,
{
    let mut r: Vec<Coin> = Vec::new();
    let mut i: usize = 0;
    while i < v.len()
        invariant
            i <= v@.len(),
            r@ == v@.take(i as int),
        decreases v.len() - i,
    {
        r.push(v[i].copy());
        assert(v@.take(i + 1) =~= v@.take(i as int).push(v@[i as int]));
        i = i + 1;
    }
    assert(v@.take(v@.len() as int) =~= v@);
    r
}

} // verus!
