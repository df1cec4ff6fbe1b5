use vstd::prelude::*;
use vstd::string::*;

use crate::error::{deserialize, Error, Kind};
use crate::json::{
    fields_view, find_field, items_view, json_parse, lemma_obj_lookup_found, obj_lookup,
    parse_json, JsonV, JsonValue,
};

verus! {

/// The native currency of a chain: its name, symbol, and decimal precision.
#[derive(Debug, PartialEq)]
pub struct NativeCurrency {
    pub name: String,
    pub symbol: String,
    pub decimals: i64,
}

/// Ghost image of a [`NativeCurrency`].
#[verifier::ext_equal]
pub struct NativeCurrencyV {
    pub name: Seq<char>,
    pub symbol: Seq<char>,
    pub decimals: i64,
}

impl View for NativeCurrency {
    type V = NativeCurrencyV;

    open spec fn view(&self) -> NativeCurrencyV {
        NativeCurrencyV { name: self.name@, symbol: self.symbol@, decimals: self.decimals }
    }
}

impl DeepView for NativeCurrency {
    type V = NativeCurrencyV;

    open spec fn deep_view(&self) -> NativeCurrencyV {
        self.view()
    }
}

impl Clone for NativeCurrency {
    fn clone(&self) -> (r: Self)
        ensures
            r@ == self@,
    {
        NativeCurrency {
            name: self.name.clone(),
            symbol: self.symbol.clone(),
            decimals: self.decimals,
        }
    }
}

/// The ENS deployment of a chain: its registry contract address.
#[derive(Debug, PartialEq)]
pub struct Ens {
    /// `0x` prefixed and checksummed address.
    pub registry: String,
}

/// Ghost image of an [`Ens`].
#[verifier::ext_equal]
pub struct EnsV {
    pub registry: Seq<char>,
}

impl View for Ens {
    type V = EnsV;

    open spec fn view(&self) -> EnsV {
        EnsV { registry: self.registry@ }
    }
}

impl DeepView for Ens {
    type V = EnsV;

    open spec fn deep_view(&self) -> EnsV {
        self.view()
    }
}

impl Clone for Ens {
    fn clone(&self) -> (r: Self)
        ensures
            r@ == self@,
    {
        Ens { registry: self.registry.clone() }
    }
}

/// A block-explorer entry of a chain.
#[derive(Debug, PartialEq)]
pub struct Explorer {
    pub name: String,
    pub url: String,
    pub standard: String,
}

/// Ghost image of an [`Explorer`].
#[verifier::ext_equal]
pub struct ExplorerV {
    pub name: Seq<char>,
    pub url: Seq<char>,
    pub standard: Seq<char>,
}

impl View for Explorer {
    type V = ExplorerV;

    open spec fn view(&self) -> ExplorerV {
        ExplorerV { name: self.name@, url: self.url@, standard: self.standard@ }
    }
}

impl DeepView for Explorer {
    type V = ExplorerV;

    open spec fn deep_view(&self) -> ExplorerV {
        self.view()
    }
}

impl Clone for Explorer {
    fn clone(&self) -> (r: Self)
        ensures
            r@ == self@,
    {
        Explorer {
            name: self.name.clone(),
            url: self.url.clone(),
            standard: self.standard.clone(),
        }
    }
}

/// One chain's metadata, as decoded from its JSON document.
#[derive(Debug, PartialEq)]
pub struct Chain {
    /// E.g. "Ethereum Mainnet".
    pub name: String,
    /// E.g. "ETH".
    pub chain: String,
    /// E.g. "mainnet".
    pub network: String,
    /// Icon reference, when one is given.
    pub icon: Option<String>,
    /// Urls for remote procedure call (RPC) endpoints.
    pub rpc: Vec<String>,
    /// Urls of faucets for the given chain.
    pub faucets: Vec<String>,
    pub native_currency: NativeCurrency,
    pub info_url: String,
    pub short_name: String,
    pub chain_id: u64,
    pub network_id: u64,
    pub slip44: Option<u64>,
    pub ens: Option<Ens>,
    pub explorers: Vec<Explorer>,
}

/// Ghost image of a [`Chain`].
#[verifier::ext_equal]
pub struct ChainV {
    pub name: Seq<char>,
    pub chain: Seq<char>,
    pub network: Seq<char>,
    pub icon: Option<Seq<char>>,
    pub rpc: Seq<Seq<char>>,
    pub faucets: Seq<Seq<char>>,
    pub native_currency: NativeCurrencyV,
    pub info_url: Seq<char>,
    pub short_name: Seq<char>,
    pub chain_id: u64,
    pub network_id: u64,
    pub slip44: Option<u64>,
    pub ens: Option<EnsV>,
    pub explorers: Seq<ExplorerV>,
}

impl View for Chain {
    type V = ChainV;

    open spec fn view(&self) -> ChainV {
        ChainV {
            name: self.name@,
            chain: self.chain@,
            network: self.network@,
            icon: self.icon.deep_view(),
            rpc: self.rpc.deep_view(),
            faucets: self.faucets.deep_view(),
            native_currency: self.native_currency@,
            info_url: self.info_url@,
            short_name: self.short_name@,
            chain_id: self.chain_id,
            network_id: self.network_id,
            slip44: self.slip44,
            ens: self.ens.deep_view(),
            explorers: self.explorers.deep_view(),
        }
    }
}

impl DeepView for Chain {
    type V = ChainV;

    open spec fn deep_view(&self) -> ChainV {
        self.view()
    }
}

impl Clone for Chain {
    fn clone(&self) -> (r: Self)
        ensures
            r@ == self@,
    {
        let rpc = self.rpc.clone();
        let faucets = self.faucets.clone();
        let explorers = self.explorers.clone();
        proof {
            assert(rpc.deep_view() =~= self.rpc.deep_view());
            assert(faucets.deep_view() =~= self.faucets.deep_view());
            assert(explorers.deep_view() =~= self.explorers.deep_view());
        }
        Chain {
            name: self.name.clone(),
            chain: self.chain.clone(),
            network: self.network.clone(),
            icon: match &self.icon {
                Some(s) => Some(s.clone()),
                None => None,
            },
            rpc,
            faucets,
            native_currency: self.native_currency.clone(),
            info_url: self.info_url.clone(),
            short_name: self.short_name.clone(),
            chain_id: self.chain_id,
            network_id: self.network_id,
            slip44: self.slip44,
            ens: match &self.ens {
                Some(e) => Some(e.clone()),
                None => None,
            },
            explorers,
        }
    }
}

/// A required text field: the named field must be present and hold a
/// string.
pub open spec fn spec_req_str(fs: Seq<(Seq<char>, JsonV)>, key: Seq<char>) -> Option<Seq<char>> {
    match obj_lookup(fs, key) {
        Some(JsonV::Str(s)) => Some(s),
        _ => None,
    }
}

/// A required unsigned field: the named field must hold a non-negative
/// integer that fits in a `u64`.
pub open spec fn spec_req_u64(fs: Seq<(Seq<char>, JsonV)>, key: Seq<char>) -> Option<u64> {
    match obj_lookup(fs, key) {
        Some(JsonV::UInt(u)) => Some(u),
        _ => None,
    }
}

/// A required signed field: the named field must hold an integer that fits
/// in an `i64`.
pub open spec fn spec_req_i64(fs: Seq<(Seq<char>, JsonV)>, key: Seq<char>) -> Option<i64> {
    match obj_lookup(fs, key) {
        Some(JsonV::UInt(u)) => if u <= i64::MAX {
            Some(u as i64)
        } else {
            None
        },
        Some(JsonV::Int(i)) => Some(i),
        _ => None,
    }
}

/// An optional text field: absent or null decodes to nothing, a string to
/// itself, anything else is a shape error.
pub open spec fn spec_opt_str(fs: Seq<(Seq<char>, JsonV)>, key: Seq<char>) -> Option<
    Option<Seq<char>>,
> {
    match obj_lookup(fs, key) {
        None => Some(None),
        Some(JsonV::Null) => Some(None),
        Some(JsonV::Str(s)) => Some(Some(s)),
        Some(_) => None,
    }
}

/// An optional unsigned field, with the same absent/null rule.
pub open spec fn spec_opt_u64(fs: Seq<(Seq<char>, JsonV)>, key: Seq<char>) -> Option<Option<u64>> {
    match obj_lookup(fs, key) {
        None => Some(None),
        Some(JsonV::Null) => Some(None),
        Some(JsonV::UInt(u)) => Some(Some(u)),
        Some(_) => None,
    }
}

/// A list of items that must all be strings, kept in order.
pub open spec fn spec_str_items(items: Seq<JsonV>) -> Option<Seq<Seq<char>>>
    decreases items.len(),
{
    if items.len() == 0 {
        Some(Seq::empty())
    } else {
        match spec_str_items(items.drop_last()) {
            Some(pre) => match items.last() {
                JsonV::Str(s) => Some(pre.push(s)),
                _ => None,
            },
            None => None,
        }
    }
}

/// A required field holding an array of strings.
pub open spec fn spec_req_str_arr(fs: Seq<(Seq<char>, JsonV)>, key: Seq<char>) -> Option<
    Seq<Seq<char>>,
> {
    match obj_lookup(fs, key) {
        Some(JsonV::Arr(items)) => spec_str_items(items),
        _ => None,
    }
}

/// One native-currency object: name, symbol and decimals, all required.
pub open spec fn spec_decode_currency(v: JsonV) -> Option<NativeCurrencyV> {
    match v {
        JsonV::Obj(cfs) => {
            let name = spec_req_str(cfs, "name"@);
            let symbol = spec_req_str(cfs, "symbol"@);
            let decimals = spec_req_i64(cfs, "decimals"@);
            if name is Some && symbol is Some && decimals is Some {
                Some(
                    NativeCurrencyV {
                        name: name->0,
                        symbol: symbol->0,
                        decimals: decimals->0,
                    },
                )
            } else {
                None
            }
        },
        _ => None,
    }
}

/// The required native-currency field.
pub open spec fn spec_req_currency(fs: Seq<(Seq<char>, JsonV)>, key: Seq<char>) -> Option<
    NativeCurrencyV,
> {
    match obj_lookup(fs, key) {
        Some(v) => spec_decode_currency(v),
        None => None,
    }
}

/// One ENS object: the registry address, required.
pub open spec fn spec_decode_ens(v: JsonV) -> Option<EnsV> {
    match v {
        JsonV::Obj(efs) => match spec_req_str(efs, "registry"@) {
            Some(reg) => Some(EnsV { registry: reg }),
            None => None,
        },
        _ => None,
    }
}

/// The optional ENS field, with the same absent/null rule as other
/// optional fields.
pub open spec fn spec_opt_ens(fs: Seq<(Seq<char>, JsonV)>, key: Seq<char>) -> Option<Option<EnsV>> {
    match obj_lookup(fs, key) {
        None => Some(None),
        Some(JsonV::Null) => Some(None),
        Some(v) => match spec_decode_ens(v) {
            Some(e) => Some(Some(e)),
            None => None,
        },
    }
}

/// One block-explorer object: name, url and standard, all required.
pub open spec fn spec_decode_explorer(v: JsonV) -> Option<ExplorerV> {
    match v {
        JsonV::Obj(efs) => {
            let name = spec_req_str(efs, "name"@);
            let url = spec_req_str(efs, "url"@);
            let standard = spec_req_str(efs, "standard"@);
            if name is Some && url is Some && standard is Some {
                Some(ExplorerV { name: name->0, url: url->0, standard: standard->0 })
            } else {
                None
            }
        },
        _ => None,
    }
}

/// A list of items that must all be explorer objects, kept in order.
pub open spec fn spec_explorer_items(items: Seq<JsonV>) -> Option<Seq<ExplorerV>>
    decreases items.len(),
{
    if items.len() == 0 {
        Some(Seq::empty())
    } else {
        match spec_explorer_items(items.drop_last()) {
            Some(pre) => match spec_decode_explorer(items.last()) {
                Some(e) => Some(pre.push(e)),
                None => None,
            },
            None => None,
        }
    }
}

/// The explorers field: absent defaults to the empty list; present, it
/// must be an array of explorer objects.
pub open spec fn spec_explorers_field(fs: Seq<(Seq<char>, JsonV)>) -> Option<Seq<ExplorerV>> {
    match obj_lookup(fs, "explorers"@) {
        None => Some(Seq::empty()),
        Some(JsonV::Arr(items)) => spec_explorer_items(items),
        Some(_) => None,
    }
}

/// The full record shape, decoded from an object's fields. Field names
/// follow the wire format's lower-camel-case convention, with the fixed
/// exception `infoURL`; unknown fields are ignored.
pub open spec fn spec_decode_chain_fields(fs: Seq<(Seq<char>, JsonV)>) -> Option<ChainV> {
    let name = spec_req_str(fs, "name"@);
    let chain = spec_req_str(fs, "chain"@);
    let network = spec_req_str(fs, "network"@);
    let icon = spec_opt_str(fs, "icon"@);
    let rpc = spec_req_str_arr(fs, "rpc"@);
    let faucets = spec_req_str_arr(fs, "faucets"@);
    let native_currency = spec_req_currency(fs, "nativeCurrency"@);
    let info_url = spec_req_str(fs, "infoURL"@);
    let short_name = spec_req_str(fs, "shortName"@);
    let chain_id = spec_req_u64(fs, "chainId"@);
    let network_id = spec_req_u64(fs, "networkId"@);
    let slip44 = spec_opt_u64(fs, "slip44"@);
    let ens = spec_opt_ens(fs, "ens"@);
    let explorers = spec_explorers_field(fs);
    if name is Some && chain is Some && network is Some && icon is Some && rpc is Some
        && faucets is Some && native_currency is Some && info_url is Some && short_name is Some
        && chain_id is Some && network_id is Some && slip44 is Some && ens is Some
        && explorers is Some {
        Some(
            ChainV {
                name: name->0,
                chain: chain->0,
                network: network->0,
                icon: icon->0,
                rpc: rpc->0,
                faucets: faucets->0,
                native_currency: native_currency->0,
                info_url: info_url->0,
                short_name: short_name->0,
                chain_id: chain_id->0,
                network_id: network_id->0,
                slip44: slip44->0,
                ens: ens->0,
                explorers: explorers->0,
            },
        )
    } else {
        None
    }
}

/// What one parsed JSON tree decodes to: a record if and only if the tree
/// is an object of the record shape.
pub open spec fn spec_decode_chain(v: JsonV) -> Option<ChainV> {
    match v {
        JsonV::Obj(fs) => spec_decode_chain_fields(fs),
        _ => None,
    }
}

/// What one JSON document decodes to: a record if and only if the text
/// parses as JSON and the tree has the record shape.
pub open spec fn spec_decode_doc(s: Seq<char>) -> Option<ChainV> {
    match json_parse(s) {
        Some(t) => spec_decode_chain(t),
        None => None,
    }
}

/// The error every shape mismatch reports.
fn shape_error() -> (r: Error)
    ensures
        r@.kind == Kind::Json,
{
    deserialize(String::from_str("the document does not have the chain record shape"))
}

/// Extracts a required string field.
fn req_str(fields: &Vec<(String, JsonValue)>, key: &str) -> (r: Result<String, Error>)
    ensures
        match r {
            Ok(s) => spec_req_str(fields_view(fields@), key@) == Some(s@),
            Err(e) => spec_req_str(fields_view(fields@), key@) is None && e@.kind == Kind::Json,
        },
{
    match find_field(fields, key) {
        Some(JsonValue::Str(s)) => Ok(s.clone()),
        _ => Err(shape_error()),
    }
}

/// Extracts a required `u64` field.
fn req_u64(fields: &Vec<(String, JsonValue)>, key: &str) -> (r: Result<u64, Error>)
    ensures
        match r {
            Ok(u) => spec_req_u64(fields_view(fields@), key@) == Some(u),
            Err(e) => spec_req_u64(fields_view(fields@), key@) is None && e@.kind == Kind::Json,
        },
{
    match find_field(fields, key) {
        Some(JsonValue::UInt(u)) => Ok(*u),
        _ => Err(shape_error()),
    }
}

/// Extracts a required `i64` field.
fn req_i64(fields: &Vec<(String, JsonValue)>, key: &str) -> (r: Result<i64, Error>)
    ensures
        match r {
            Ok(i) => spec_req_i64(fields_view(fields@), key@) == Some(i),
            Err(e) => spec_req_i64(fields_view(fields@), key@) is None && e@.kind == Kind::Json,
        },
{
    match find_field(fields, key) {
        Some(JsonValue::UInt(u)) => {
            if *u <= i64::MAX as u64 {
                Ok(*u as i64)
            } else {
                Err(shape_error())
            }
        },
        Some(JsonValue::Int(i)) => Ok(*i),
        _ => Err(shape_error()),
    }
}

/// Extracts an optional string field.
fn opt_str(fields: &Vec<(String, JsonValue)>, key: &str) -> (r: Result<Option<String>, Error>)
    ensures
        match r {
            Ok(o) => spec_opt_str(fields_view(fields@), key@) == Some(o.deep_view()),
            Err(e) => spec_opt_str(fields_view(fields@), key@) is None && e@.kind == Kind::Json,
        },
{
    match find_field(fields, key) {
        None => Ok(None),
        Some(JsonValue::Null) => Ok(None),
        Some(JsonValue::Str(s)) => Ok(Some(s.clone())),
        Some(_) => Err(shape_error()),
    }
}

/// Extracts an optional `u64` field.
fn opt_u64(fields: &Vec<(String, JsonValue)>, key: &str) -> (r: Result<Option<u64>, Error>)
    ensures
        match r {
            Ok(o) => spec_opt_u64(fields_view(fields@), key@) == Some(o),
            Err(e) => spec_opt_u64(fields_view(fields@), key@) is None && e@.kind == Kind::Json,
        },
{
    match find_field(fields, key) {
        None => Ok(None),
        Some(JsonValue::Null) => Ok(None),
        Some(JsonValue::UInt(u)) => Ok(Some(*u)),
        Some(_) => Err(shape_error()),
    }
}

/// A failed prefix dooms the whole string list.
proof fn lemma_str_items_prefix(items: Seq<JsonV>, i: int)
    requires
        0 <= i <= items.len(),
        spec_str_items(items.take(i)) is None,
    ensures
        spec_str_items(items) is None,
    decreases items.len() - i,
{
    if i < items.len() {
        assert(items.take(i + 1).drop_last() =~= items.take(i));
        lemma_str_items_prefix(items, i + 1);
    } else {
        assert(items.take(i) =~= items);
    }
}

/// A failed prefix dooms the whole explorer list.
proof fn lemma_explorer_items_prefix(items: Seq<JsonV>, i: int)
    requires
        0 <= i <= items.len(),
        spec_explorer_items(items.take(i)) is None,
    ensures
        spec_explorer_items(items) is None,
    decreases items.len() - i,
{
    if i < items.len() {
        assert(items.take(i + 1).drop_last() =~= items.take(i));
        lemma_explorer_items_prefix(items, i + 1);
    } else {
        assert(items.take(i) =~= items);
    }
}

/// Decodes an array whose items must all be strings.
fn decode_str_items(items: &Vec<JsonValue>) -> (r: Result<Vec<String>, Error>)
    ensures
        match r {
            Ok(v) => spec_str_items(items_view(items@)) == Some(v.deep_view()),
            Err(e) => spec_str_items(items_view(items@)) is None && e@.kind == Kind::Json,
        },
{
    let ghost iv = items_view(items@);
    let mut out: Vec<String> = Vec::new();
    let mut i: usize = 0;
    while i < items.len()
        invariant
            0 <= i <= items.len(),
            iv == items_view(items@),
            spec_str_items(iv.take(i as int)) == Some(out.deep_view()),
        decreases items.len() - i,
    {
        match &items[i] {
            JsonValue::Str(s) => {
                out.push(s.clone());
                proof {
                    assert(iv.take(i + 1).drop_last() =~= iv.take(i as int));
                    assert(iv.take(i + 1).last() == iv[i as int]);
                }
            },
            _ => {
                proof {
                    assert(iv.take(i + 1).drop_last() =~= iv.take(i as int));
                    assert(spec_str_items(iv.take(i + 1)) is None);
                    lemma_str_items_prefix(iv, i + 1);
                }
                return Err(shape_error());
            },
        }
        i = i + 1;
    }
    proof {
        assert(iv.take(i as int) =~= iv);
    }
    Ok(out)
}

/// Extracts a required field holding an array of strings.
fn req_str_arr(fields: &Vec<(String, JsonValue)>, key: &str) -> (r: Result<Vec<String>, Error>)
    ensures
        match r {
            Ok(v) => spec_req_str_arr(fields_view(fields@), key@) == Some(v.deep_view()),
            Err(e) => spec_req_str_arr(fields_view(fields@), key@) is None && e@.kind
                == Kind::Json,
        },
{
    match find_field(fields, key) {
        Some(JsonValue::Arr(items)) => decode_str_items(items),
        _ => Err(shape_error()),
    }
}

/// Decodes one native-currency object.
fn decode_currency(v: &JsonValue) -> (r: Result<NativeCurrency, Error>)
    ensures
        match r {
            Ok(c) => spec_decode_currency(v@) == Some(c@),
            Err(e) => spec_decode_currency(v@) is None && e@.kind == Kind::Json,
        },
{
    let fields = match v {
        JsonValue::Obj(fields) => fields,
        _ => {
            return Err(shape_error());
        },
    };
    let name = match req_str(fields, "name") {
        Ok(x) => x,
        Err(e) => {
            return Err(e);
        },
    };
    let symbol = match req_str(fields, "symbol") {
        Ok(x) => x,
        Err(e) => {
            return Err(e);
        },
    };
    let decimals = match req_i64(fields, "decimals") {
        Ok(x) => x,
        Err(e) => {
            return Err(e);
        },
    };
    Ok(NativeCurrency { name, symbol, decimals })
}

/// Decodes one ENS object.
fn decode_ens(v: &JsonValue) -> (r: Result<Ens, Error>)
    ensures
        match r {
            Ok(e) => spec_decode_ens(v@) == Some(e@),
            Err(e) => spec_decode_ens(v@) is None && e@.kind == Kind::Json,
        },
{
    let fields = match v {
        JsonValue::Obj(fields) => fields,
        _ => {
            return Err(shape_error());
        },
    };
    match req_str(fields, "registry") {
        Ok(reg) => Ok(Ens { registry: reg }),
        Err(e) => Err(e),
    }
}

/// Extracts the optional ENS field.
fn opt_ens(fields: &Vec<(String, JsonValue)>, key: &str) -> (r: Result<Option<Ens>, Error>)
    ensures
        match r {
            Ok(o) => spec_opt_ens(fields_view(fields@), key@) == Some(o.deep_view()),
            Err(e) => spec_opt_ens(fields_view(fields@), key@) is None && e@.kind == Kind::Json,
        },
{
    match find_field(fields, key) {
        None => Ok(None),
        Some(JsonValue::Null) => Ok(None),
        Some(v) => match decode_ens(v) {
            Ok(e) => Ok(Some(e)),
            Err(e) => Err(e),
        },
    }
}

/// Decodes one block-explorer object.
fn decode_explorer(v: &JsonValue) -> (r: Result<Explorer, Error>)
    ensures
        match r {
            Ok(x) => spec_decode_explorer(v@) == Some(x@),
            Err(e) => spec_decode_explorer(v@) is None && e@.kind == Kind::Json,
        },
{
    let fields = match v {
        JsonValue::Obj(fields) => fields,
        _ => {
            return Err(shape_error());
        },
    };
    let name = match req_str(fields, "name") {
        Ok(x) => x,
        Err(e) => {
            return Err(e);
        },
    };
    let url = match req_str(fields, "url") {
        Ok(x) => x,
        Err(e) => {
            return Err(e);
        },
    };
    let standard = match req_str(fields, "standard") {
        Ok(x) => x,
        Err(e) => {
            return Err(e);
        },
    };
    Ok(Explorer { name, url, standard })
}

/// Decodes an array whose items must all be explorer objects.
fn decode_explorer_items(items: &Vec<JsonValue>) -> (r: Result<Vec<Explorer>, Error>)
    ensures
        match r {
            Ok(v) => spec_explorer_items(items_view(items@)) == Some(v.deep_view()),
            Err(e) => spec_explorer_items(items_view(items@)) is None && e@.kind == Kind::Json,
        },
{
    let ghost iv = items_view(items@);
    let mut out: Vec<Explorer> = Vec::new();
    let mut i: usize = 0;
    while i < items.len()
        invariant
            0 <= i <= items.len(),
            iv == items_view(items@),
            spec_explorer_items(iv.take(i as int)) == Some(out.deep_view()),
        decreases items.len() - i,
    {
        match decode_explorer(&items[i]) {
            Ok(x) => {
                out.push(x);
                proof {
                    assert(iv.take(i + 1).drop_last() =~= iv.take(i as int));
                    assert(iv.take(i + 1).last() == iv[i as int]);
                }
            },
            Err(e) => {
                proof {
                    assert(iv.take(i + 1).drop_last() =~= iv.take(i as int));
                    assert(spec_explorer_items(iv.take(i + 1)) is None);
                    lemma_explorer_items_prefix(iv, i + 1);
                }
                return Err(e);
            },
        }
        i = i + 1;
    }
    proof {
        assert(iv.take(i as int) =~= iv);
    }
    Ok(out)
}

/// Extracts the explorers field, defaulting to the empty list when the
/// field is absent.
fn explorers_field(fields: &Vec<(String, JsonValue)>) -> (r: Result<Vec<Explorer>, Error>)
    ensures
        match r {
            Ok(v) => spec_explorers_field(fields_view(fields@)) == Some(v.deep_view()),
            Err(e) => spec_explorers_field(fields_view(fields@)) is None && e@.kind == Kind::Json,
        },
{
    match find_field(fields, "explorers") {
        None => Ok(Vec::new()),
        Some(JsonValue::Arr(items)) => decode_explorer_items(items),
        Some(_) => Err(shape_error()),
    }
}

impl Chain {
    /// Decodes one parsed JSON tree into a chain record. The result is a
    /// record exactly when the tree has the record shape, and the shape
    /// error otherwise.
    pub fn decode_value(v: &JsonValue) -> (r: Result<Chain, Error>)
        ensures
            match r {
                Ok(c) => spec_decode_chain(v@) == Some(c@),
                Err(e) => spec_decode_chain(v@) is None && e@.kind == Kind::Json,
            },
    {
        let fields = match v {
            JsonValue::Obj(fields) => fields,
            _ => {
                return Err(shape_error());
            },
        };
        let name = match req_str(fields, "name") {
            Ok(x) => x,
            Err(e) => {
                return Err(e);
            },
        };
        let chain = match req_str(fields, "chain") {
            Ok(x) => x,
            Err(e) => {
                return Err(e);
            },
        };
        let network = match req_str(fields, "network") {
            Ok(x) => x,
            Err(e) => {
                return Err(e);
            },
        };
        let icon = match opt_str(fields, "icon") {
            Ok(x) => x,
            Err(e) => {
                return Err(e);
            },
        };
        let rpc = match req_str_arr(fields, "rpc") {
            Ok(x) => x,
            Err(e) => {
                return Err(e);
            },
        };
        let faucets = match req_str_arr(fields, "faucets") {
            Ok(x) => x,
            Err(e) => {
                return Err(e);
            },
        };
        let native_currency = match find_field(fields, "nativeCurrency") {
            Some(cv) => match decode_currency(cv) {
                Ok(x) => x,
                Err(e) => {
                    return Err(e);
                },
            },
            None => {
                return Err(shape_error());
            },
        };
        let info_url = match req_str(fields, "infoURL") {
            Ok(x) => x,
            Err(e) => {
                return Err(e);
            },
        };
        let short_name = match req_str(fields, "shortName") {
            Ok(x) => x,
            Err(e) => {
                return Err(e);
            },
        };
        let chain_id = match req_u64(fields, "chainId") {
            Ok(x) => x,
            Err(e) => {
                return Err(e);
            },
        };
        let network_id = match req_u64(fields, "networkId") {
            Ok(x) => x,
            Err(e) => {
                return Err(e);
            },
        };
        let slip44 = match opt_u64(fields, "slip44") {
            Ok(x) => x,
            Err(e) => {
                return Err(e);
            },
        };
        let ens = match opt_ens(fields, "ens") {
            Ok(x) => x,
            Err(e) => {
                return Err(e);
            },
        };
        let explorers = match explorers_field(fields) {
            Ok(x) => x,
            Err(e) => {
                return Err(e);
            },
        };
        Ok(
            Chain {
                name,
                chain,
                network,
                icon,
                rpc,
                faucets,
                native_currency,
                info_url,
                short_name,
                chain_id,
                network_id,
                slip44,
                ens,
                explorers,
            },
        )
    }

    /// Decodes one JSON document into a chain record. The result is a
    /// record exactly when the text parses as JSON and the tree has the
    /// record shape; every failure carries the deserialization kind.
    pub fn decode(text: &str) -> (r: Result<Chain, Error>)
        ensures
            match r {
                Ok(c) => spec_decode_doc(text@) == Some(c@),
                Err(e) => spec_decode_doc(text@) is None && e@.kind == Kind::Json,
            },
    {
        match parse_json(text) {
            Ok(v) => Chain::decode_value(&v),
            Err(msg) => Err(deserialize(msg)),
        }
    }
}

/// The items a list of strings encodes to.
pub open spec fn spec_encode_strs(ss: Seq<Seq<char>>) -> Seq<JsonV> {
    ss.map_values(|s: Seq<char>| JsonV::Str(s))
}

/// The value an optional string encodes to: null when absent.
pub open spec fn spec_encode_opt_str(o: Option<Seq<char>>) -> JsonV {
    match o {
        Some(s) => JsonV::Str(s),
        None => JsonV::Null,
    }
}

/// The value an optional number encodes to: null when absent.
pub open spec fn spec_encode_opt_u64(o: Option<u64>) -> JsonV {
    match o {
        Some(u) => JsonV::UInt(u),
        None => JsonV::Null,
    }
}

/// The object a native currency encodes to.
pub open spec fn spec_encode_currency(c: NativeCurrencyV) -> JsonV {
    JsonV::Obj(
        seq![
            ("name"@, JsonV::Str(c.name)),
            ("symbol"@, JsonV::Str(c.symbol)),
            ("decimals"@, JsonV::Int(c.decimals)),
        ],
    )
}

/// The object an ENS entry encodes to.
pub open spec fn spec_encode_ens(e: EnsV) -> JsonV {
    JsonV::Obj(seq![("registry"@, JsonV::Str(e.registry))])
}

/// The value the optional ENS field encodes to: null when absent.
pub open spec fn spec_encode_opt_ens(o: Option<EnsV>) -> JsonV {
    match o {
        Some(e) => spec_encode_ens(e),
        None => JsonV::Null,
    }
}

/// The object a block explorer encodes to.
pub open spec fn spec_encode_explorer(e: ExplorerV) -> JsonV {
    JsonV::Obj(
        seq![
            ("name"@, JsonV::Str(e.name)),
            ("url"@, JsonV::Str(e.url)),
            ("standard"@, JsonV::Str(e.standard)),
        ],
    )
}

/// The items a list of explorers encodes to.
pub open spec fn spec_encode_explorers(es: Seq<ExplorerV>) -> Seq<JsonV> {
    es.map_values(|e: ExplorerV| spec_encode_explorer(e))
}

/// The field list a record encodes to: every field written, in the wire
/// order, optional fields as null when absent.
pub open spec fn spec_encode_fields(c: ChainV) -> Seq<(Seq<char>, JsonV)> {
    seq![
        ("name"@, JsonV::Str(c.name)),
        ("chain"@, JsonV::Str(c.chain)),
        ("network"@, JsonV::Str(c.network)),
        ("icon"@, spec_encode_opt_str(c.icon)),
        ("rpc"@, JsonV::Arr(spec_encode_strs(c.rpc))),
        ("faucets"@, JsonV::Arr(spec_encode_strs(c.faucets))),
        ("nativeCurrency"@, spec_encode_currency(c.native_currency)),
        ("infoURL"@, JsonV::Str(c.info_url)),
        ("shortName"@, JsonV::Str(c.short_name)),
        ("chainId"@, JsonV::UInt(c.chain_id)),
        ("networkId"@, JsonV::UInt(c.network_id)),
        ("slip44"@, spec_encode_opt_u64(c.slip44)),
        ("ens"@, spec_encode_opt_ens(c.ens)),
        ("explorers"@, JsonV::Arr(spec_encode_explorers(c.explorers))),
    ]
}

/// The tree a record encodes to.
pub open spec fn spec_encode_chain(c: ChainV) -> JsonV {
    JsonV::Obj(spec_encode_fields(c))
}

/// Encodes a list of strings as JSON items.
fn encode_strs(v: &Vec<String>) -> (r: Vec<JsonValue>)
    ensures
        items_view(r@) == spec_encode_strs(v.deep_view()),
{
    let mut out: Vec<JsonValue> = Vec::new();
    let mut i: usize = 0;
    while i < v.len()
        invariant
            0 <= i <= v.len(),
            out@.len() == i,
            forall|j: int| 0 <= j < i ==> out@[j]@ == JsonV::Str(v@[j]@),
        decreases v.len() - i,
    {
        out.push(JsonValue::Str(v[i].clone()));
        i = i + 1;
    }
    proof {
        assert(items_view(out@) =~= spec_encode_strs(v.deep_view()));
    }
    out
}

/// Encodes one native currency.
fn encode_currency(c: &NativeCurrency) -> (r: JsonValue)
    ensures
        r@ == spec_encode_currency(c@),
{
    let mut fields: Vec<(String, JsonValue)> = Vec::new();
    fields.push((String::from_str("name"), JsonValue::Str(c.name.clone())));
    fields.push((String::from_str("symbol"), JsonValue::Str(c.symbol.clone())));
    fields.push((String::from_str("decimals"), JsonValue::Int(c.decimals)));
    let ghost fvs = fields@;
    let r = JsonValue::Obj(fields);
    proof {
        assert(fields_view(fvs) =~= seq![
            ("name"@, JsonV::Str(c.name@)),
            ("symbol"@, JsonV::Str(c.symbol@)),
            ("decimals"@, JsonV::Int(c.decimals)),
        ]);
    }
    r
}

/// Encodes one ENS entry.
fn encode_ens(e: &Ens) -> (r: JsonValue)
    ensures
        r@ == spec_encode_ens(e@),
{
    let mut fields: Vec<(String, JsonValue)> = Vec::new();
    fields.push((String::from_str("registry"), JsonValue::Str(e.registry.clone())));
    let ghost fvs = fields@;
    let r = JsonValue::Obj(fields);
    proof {
        assert(fields_view(fvs) =~= seq![("registry"@, JsonV::Str(e.registry@))]);
    }
    r
}

/// Encodes one block explorer.
fn encode_explorer(e: &Explorer) -> (r: JsonValue)
    ensures
        r@ == spec_encode_explorer(e@),
{
    let mut fields: Vec<(String, JsonValue)> = Vec::new();
    fields.push((String::from_str("name"), JsonValue::Str(e.name.clone())));
    fields.push((String::from_str("url"), JsonValue::Str(e.url.clone())));
    fields.push((String::from_str("standard"), JsonValue::Str(e.standard.clone())));
    let ghost fvs = fields@;
    let r = JsonValue::Obj(fields);
    proof {
        assert(fields_view(fvs) =~= seq![
            ("name"@, JsonV::Str(e.name@)),
            ("url"@, JsonV::Str(e.url@)),
            ("standard"@, JsonV::Str(e.standard@)),
        ]);
    }
    r
}

/// Encodes a list of explorers as JSON items.
fn encode_explorers(v: &Vec<Explorer>) -> (r: Vec<JsonValue>)
    ensures
        items_view(r@) == spec_encode_explorers(v.deep_view()),
{
    let mut out: Vec<JsonValue> = Vec::new();
    let mut i: usize = 0;
    while i < v.len()
        invariant
            0 <= i <= v.len(),
            out@.len() == i,
            forall|j: int| 0 <= j < i ==> out@[j]@ == spec_encode_explorer(v@[j]@),
        decreases v.len() - i,
    {
        out.push(encode_explorer(&v[i]));
        i = i + 1;
    }
    proof {
        assert(items_view(out@) =~= spec_encode_explorers(v.deep_view()));
    }
    out
}

impl Chain {
    /// Encodes the record back to a JSON tree: every field written, in
    /// the wire order, optional fields as null when absent.
    pub fn encode(&self) -> (r: JsonValue)
        ensures
            r@ == spec_encode_chain(self@),
    {
        let mut fields: Vec<(String, JsonValue)> = Vec::new();
        fields.push((String::from_str("name"), JsonValue::Str(self.name.clone())));
        fields.push((String::from_str("chain"), JsonValue::Str(self.chain.clone())));
        fields.push((String::from_str("network"), JsonValue::Str(self.network.clone())));
        fields.push(
            (
                String::from_str("icon"),
                match &self.icon {
                    Some(s) => JsonValue::Str(s.clone()),
                    None => JsonValue::Null,
                },
            ),
        );
        fields.push((String::from_str("rpc"), JsonValue::Arr(encode_strs(&self.rpc))));
        fields.push((String::from_str("faucets"), JsonValue::Arr(encode_strs(&self.faucets))));
        fields.push((String::from_str("nativeCurrency"), encode_currency(&self.native_currency)));
        fields.push((String::from_str("infoURL"), JsonValue::Str(self.info_url.clone())));
        fields.push((String::from_str("shortName"), JsonValue::Str(self.short_name.clone())));
        fields.push((String::from_str("chainId"), JsonValue::UInt(self.chain_id)));
        fields.push((String::from_str("networkId"), JsonValue::UInt(self.network_id)));
        fields.push(
            (
                String::from_str("slip44"),
                match self.slip44 {
                    Some(u) => JsonValue::UInt(u),
                    None => JsonValue::Null,
                },
            ),
        );
        fields.push(
            (
                String::from_str("ens"),
                match &self.ens {
                    Some(e) => encode_ens(e),
                    None => JsonValue::Null,
                },
            ),
        );
        fields.push(
            (String::from_str("explorers"), JsonValue::Arr(encode_explorers(&self.explorers))),
        );
        let ghost fvs = fields@;
        let r = JsonValue::Obj(fields);
        proof {
            assert(fields_view(fvs) =~= spec_encode_fields(self@));
        }
        r
    }
}


/// Decoding the items a string list encodes to yields the list back.
proof fn lemma_str_items_encode(ss: Seq<Seq<char>>)
    ensures
        spec_str_items(spec_encode_strs(ss)) == Some(ss),
    decreases ss.len(),
{
    if ss.len() == 0 {
        assert(spec_encode_strs(ss) =~= Seq::<JsonV>::empty());
        assert(ss =~= Seq::<Seq<char>>::empty());
    } else {
        lemma_str_items_encode(ss.drop_last());
        let es = spec_encode_strs(ss);
        assert(es.drop_last() =~= spec_encode_strs(ss.drop_last()));
        assert(es.last() == JsonV::Str(ss.last()));
        assert(ss.drop_last().push(ss.last()) =~= ss);
    }
}

/// Decoding the object a currency encodes to yields the currency back.
proof fn lemma_currency_encode(c: NativeCurrencyV)
    ensures
        spec_decode_currency(spec_encode_currency(c)) == Some(c),
{
    reveal_strlit("name");
    reveal_strlit("symbol");
    reveal_strlit("decimals");
    assert("name"@.len() == 4);
    assert("symbol"@.len() == 6);
    assert("decimals"@.len() == 8);
    let fs = seq![
        ("name"@, JsonV::Str(c.name)),
        ("symbol"@, JsonV::Str(c.symbol)),
        ("decimals"@, JsonV::Int(c.decimals)),
    ];
    assert(fs.len() == 3);
    lemma_obj_lookup_found(fs, "name"@, 0);
    lemma_obj_lookup_found(fs, "symbol"@, 1);
    lemma_obj_lookup_found(fs, "decimals"@, 2);
    assert(NativeCurrencyV { name: c.name, symbol: c.symbol, decimals: c.decimals } =~= c);
}

/// Decoding the object an ENS entry encodes to yields the entry back.
proof fn lemma_ens_encode(e: EnsV)
    ensures
        spec_decode_ens(spec_encode_ens(e)) == Some(e),
{
    reveal_strlit("registry");
    let fs = seq![("registry"@, JsonV::Str(e.registry))];
    lemma_obj_lookup_found(fs, "registry"@, 0);
    assert(EnsV { registry: e.registry } =~= e);
}

/// Decoding the object an explorer encodes to yields the explorer back.
proof fn lemma_explorer_encode(e: ExplorerV)
    ensures
        spec_decode_explorer(spec_encode_explorer(e)) == Some(e),
{
    reveal_strlit("name");
    reveal_strlit("url");
    reveal_strlit("standard");
    assert("name"@.len() == 4);
    assert("url"@.len() == 3);
    assert("standard"@.len() == 8);
    let fs = seq![
        ("name"@, JsonV::Str(e.name)),
        ("url"@, JsonV::Str(e.url)),
        ("standard"@, JsonV::Str(e.standard)),
    ];
    assert(fs.len() == 3);
    lemma_obj_lookup_found(fs, "name"@, 0);
    lemma_obj_lookup_found(fs, "url"@, 1);
    lemma_obj_lookup_found(fs, "standard"@, 2);
    assert(ExplorerV { name: e.name, url: e.url, standard: e.standard } =~= e);
}

/// Decoding the items an explorer list encodes to yields the list back.
proof fn lemma_explorer_items_encode(es: Seq<ExplorerV>)
    ensures
        spec_explorer_items(spec_encode_explorers(es)) == Some(es),
    decreases es.len(),
{
    if es.len() == 0 {
        assert(spec_encode_explorers(es) =~= Seq::<JsonV>::empty());
        assert(es =~= Seq::<ExplorerV>::empty());
    } else {
        lemma_explorer_items_encode(es.drop_last());
        lemma_explorer_encode(es.last());
        let xs = spec_encode_explorers(es);
        assert(xs.drop_last() =~= spec_encode_explorers(es.drop_last()));
        assert(xs.last() == spec_encode_explorer(es.last()));
        assert(es.drop_last().push(es.last()) =~= es);
    }
}

/// Round trip: decoding the tree any record encodes to yields an equal
/// record.
#[verifier::rlimit(100)]
pub proof fn lemma_encode_decode_round_trip(c: ChainV)
    ensures
        spec_decode_chain(spec_encode_chain(c)) == Some(c),
{
    reveal_strlit("name");
    reveal_strlit("chain");
    reveal_strlit("network");
    reveal_strlit("icon");
    reveal_strlit("rpc");
    reveal_strlit("faucets");
    reveal_strlit("nativeCurrency");
    reveal_strlit("infoURL");
    reveal_strlit("shortName");
    reveal_strlit("chainId");
    reveal_strlit("networkId");
    reveal_strlit("slip44");
    reveal_strlit("ens");
    reveal_strlit("explorers");
    assert("name"@.len() == 4);
    assert("name"@[0] == 'n');
    assert("chain"@.len() == 5);
    assert("chain"@[0] == 'c');
    assert("network"@.len() == 7);
    assert("network"@[0] == 'n');
    assert("icon"@.len() == 4);
    assert("icon"@[0] == 'i');
    assert("rpc"@.len() == 3);
    assert("rpc"@[0] == 'r');
    assert("faucets"@.len() == 7);
    assert("faucets"@[0] == 'f');
    assert("nativeCurrency"@.len() == 14);
    assert("nativeCurrency"@[0] == 'n');
    assert("infoURL"@.len() == 7);
    assert("infoURL"@[0] == 'i');
    assert("shortName"@.len() == 9);
    assert("shortName"@[0] == 's');
    assert("chainId"@.len() == 7);
    assert("chainId"@[0] == 'c');
    assert("networkId"@.len() == 9);
    assert("networkId"@[0] == 'n');
    assert("slip44"@.len() == 6);
    assert("slip44"@[0] == 's');
    assert("ens"@.len() == 3);
    assert("ens"@[0] == 'e');
    assert("explorers"@.len() == 9);
    assert("explorers"@[0] == 'e');
    let fs = spec_encode_fields(c);
    assert(fs.len() == 14);
    assert(fs[0] == ("name"@, JsonV::Str(c.name)));
    assert(fs[1] == ("chain"@, JsonV::Str(c.chain)));
    assert(fs[2] == ("network"@, JsonV::Str(c.network)));
    assert(fs[3] == ("icon"@, spec_encode_opt_str(c.icon)));
    assert(fs[4] == ("rpc"@, JsonV::Arr(spec_encode_strs(c.rpc))));
    assert(fs[5] == ("faucets"@, JsonV::Arr(spec_encode_strs(c.faucets))));
    assert(fs[6] == ("nativeCurrency"@, spec_encode_currency(c.native_currency)));
    assert(fs[7] == ("infoURL"@, JsonV::Str(c.info_url)));
    assert(fs[8] == ("shortName"@, JsonV::Str(c.short_name)));
    assert(fs[9] == ("chainId"@, JsonV::UInt(c.chain_id)));
    assert(fs[10] == ("networkId"@, JsonV::UInt(c.network_id)));
    assert(fs[11] == ("slip44"@, spec_encode_opt_u64(c.slip44)));
    assert(fs[12] == ("ens"@, spec_encode_opt_ens(c.ens)));
    assert(fs[13] == ("explorers"@, JsonV::Arr(spec_encode_explorers(c.explorers))));
    lemma_obj_lookup_found(fs, "name"@, 0);
    lemma_obj_lookup_found(fs, "chain"@, 1);
    lemma_obj_lookup_found(fs, "network"@, 2);
    lemma_obj_lookup_found(fs, "icon"@, 3);
    lemma_obj_lookup_found(fs, "rpc"@, 4);
    lemma_obj_lookup_found(fs, "faucets"@, 5);
    lemma_obj_lookup_found(fs, "nativeCurrency"@, 6);
    lemma_obj_lookup_found(fs, "infoURL"@, 7);
    lemma_obj_lookup_found(fs, "shortName"@, 8);
    lemma_obj_lookup_found(fs, "chainId"@, 9);
    lemma_obj_lookup_found(fs, "networkId"@, 10);
    lemma_obj_lookup_found(fs, "slip44"@, 11);
    lemma_obj_lookup_found(fs, "ens"@, 12);
    lemma_obj_lookup_found(fs, "explorers"@, 13);
    lemma_str_items_encode(c.rpc);
    lemma_str_items_encode(c.faucets);
    lemma_currency_encode(c.native_currency);
    lemma_explorer_items_encode(c.explorers);
    if c.ens is Some {
        lemma_ens_encode(c.ens->0);
    }
    assert(spec_req_str(fs, "name"@) == Some(c.name));
    assert(spec_req_str(fs, "chain"@) == Some(c.chain));
    assert(spec_req_str(fs, "network"@) == Some(c.network));
    assert(spec_opt_str(fs, "icon"@) == Some(c.icon));
    assert(spec_req_str_arr(fs, "rpc"@) == Some(c.rpc));
    assert(spec_req_str_arr(fs, "faucets"@) == Some(c.faucets));
    assert(spec_req_currency(fs, "nativeCurrency"@) == Some(c.native_currency));
    assert(spec_req_str(fs, "infoURL"@) == Some(c.info_url));
    assert(spec_req_str(fs, "shortName"@) == Some(c.short_name));
    assert(spec_req_u64(fs, "chainId"@) == Some(c.chain_id));
    assert(spec_req_u64(fs, "networkId"@) == Some(c.network_id));
    assert(spec_opt_u64(fs, "slip44"@) == Some(c.slip44));
    assert(spec_opt_ens(fs, "ens"@) == Some(c.ens));
    assert(spec_explorers_field(fs) == Some(c.explorers));
    assert(spec_decode_chain_fields(fs) is Some);
    let built = spec_decode_chain_fields(fs)->0;
    assert(built =~= c);
}

} // verus!
