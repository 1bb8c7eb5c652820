//! The fixed seeds from which the programs derive their account addresses.
use vstd::prelude::*;

verus! {

/// A byte seed's deep view is its view.
pub proof fn lemma_bytes_deep_view(v: Vec<u8>)
    ensures
        v.deep_view() == v@,
{
    assert(v.deep_view() =~= v@);
}

/// The seed list `[a]`.
pub fn seeds1(a: Vec<u8>) -> (r: Vec<Vec<u8>>)
    ensures
        r.deep_view() == seq![a@],
{
    let ghost av = a@;
    proof { lemma_bytes_deep_view(a); }
    let mut r: Vec<Vec<u8>> = Vec::new();
    r.push(a);
    assert(r.deep_view() =~= seq![av]);
    r
}

/// The seed list `[a, b]`.
pub fn seeds2(a: Vec<u8>, b: Vec<u8>) -> (r: Vec<Vec<u8>>)
    ensures
        r.deep_view() == seq![a@, b@],
{
    let ghost av = a@;
    let ghost bv = b@;
    proof {
        lemma_bytes_deep_view(a);
        lemma_bytes_deep_view(b);
    }
    let mut r: Vec<Vec<u8>> = Vec::new();
    r.push(a);
    r.push(b);
    assert(r.deep_view() =~= seq![av, bv]);
    r
}

/// The bytes of `b"crafting_config"`.
pub open spec fn crafting_config_tag() -> Seq<u8> {
    seq![99, 114, 97, 102, 116, 105, 110, 103, 95, 99, 111, 110, 102, 105, 103]
}

pub fn crafting_config_seed() -> (r: Vec<u8>)
    ensures
        r@ == crafting_config_tag(),
{
    let r: Vec<u8> = vec![99, 114, 97, 102, 116, 105, 110, 103, 95, 99, 111, 110, 102, 105, 103];
    assert(r@ =~= crafting_config_tag());
    r
}

/// The bytes of `b"player"`.
pub open spec fn player_tag() -> Seq<u8> {
    seq![112, 108, 97, 121, 101, 114]
}

pub fn player_seed() -> (r: Vec<u8>)
    ensures
        r@ == player_tag(),
{
    let r: Vec<u8> = vec![112, 108, 97, 121, 101, 114];
    assert(r@ =~= player_tag());
    r
}

/// The bytes of `b"item_config"`.
pub open spec fn item_config_tag() -> Seq<u8> {
    seq![105, 116, 101, 109, 95, 99, 111, 110, 102, 105, 103]
}

pub fn item_config_seed() -> (r: Vec<u8>)
    ensures
        r@ == item_config_tag(),
{
    let r: Vec<u8> = vec![105, 116, 101, 109, 95, 99, 111, 110, 102, 105, 103];
    assert(r@ =~= item_config_tag());
    r
}

/// The bytes of `b"item_metadata"`.
pub open spec fn item_metadata_tag() -> Seq<u8> {
    seq![105, 116, 101, 109, 95, 109, 101, 116, 97, 100, 97, 116, 97]
}

pub fn item_metadata_seed() -> (r: Vec<u8>)
    ensures
        r@ == item_metadata_tag(),
{
    let r: Vec<u8> = vec![105, 116, 101, 109, 95, 109, 101, 116, 97, 100, 97, 116, 97];
    assert(r@ =~= item_metadata_tag());
    r
}

/// The bytes of `b"magic_config"`.
pub open spec fn magic_config_tag() -> Seq<u8> {
    seq![109, 97, 103, 105, 99, 95, 99, 111, 110, 102, 105, 103]
}

pub fn magic_config_seed() -> (r: Vec<u8>)
    ensures
        r@ == magic_config_tag(),
{
    let r: Vec<u8> = vec![109, 97, 103, 105, 99, 95, 99, 111, 110, 102, 105, 103];
    assert(r@ =~= magic_config_tag());
    r
}

/// The bytes of `b"magic_mint"`.
pub open spec fn magic_mint_tag() -> Seq<u8> {
    seq![109, 97, 103, 105, 99, 95, 109, 105, 110, 116]
}

pub fn magic_mint_seed() -> (r: Vec<u8>)
    ensures
        r@ == magic_mint_tag(),
{
    let r: Vec<u8> = vec![109, 97, 103, 105, 99, 95, 109, 105, 110, 116];
    assert(r@ =~= magic_mint_tag());
    r
}

/// The bytes of `b"magic_authority"`.
pub open spec fn magic_authority_tag() -> Seq<u8> {
    seq![109, 97, 103, 105, 99, 95, 97, 117, 116, 104, 111, 114, 105, 116, 121]
}

pub fn magic_authority_seed() -> (r: Vec<u8>)
    ensures
        r@ == magic_authority_tag(),
{
    let r: Vec<u8> = vec![109, 97, 103, 105, 99, 95, 97, 117, 116, 104, 111, 114, 105, 116, 121];
    assert(r@ =~= magic_authority_tag());
    r
}

/// The bytes of `b"marketplace_config"`.
pub open spec fn marketplace_config_tag() -> Seq<u8> {
    seq![109, 97, 114, 107, 101, 116, 112, 108, 97, 99, 101, 95, 99, 111, 110, 102, 105, 103]
}

pub fn marketplace_config_seed() -> (r: Vec<u8>)
    ensures
        r@ == marketplace_config_tag(),
{
    let r: Vec<u8> = vec![109, 97, 114, 107, 101, 116, 112, 108, 97, 99, 101, 95, 99, 111, 110, 102, 105, 103];
    assert(r@ =~= marketplace_config_tag());
    r
}

/// The bytes of `b"listing"`.
pub open spec fn listing_tag() -> Seq<u8> {
    seq![108, 105, 115, 116, 105, 110, 103]
}

pub fn listing_seed() -> (r: Vec<u8>)
    ensures
        r@ == listing_tag(),
{
    let r: Vec<u8> = vec![108, 105, 115, 116, 105, 110, 103];
    assert(r@ =~= listing_tag());
    r
}

/// The bytes of `b"game_config"`.
pub open spec fn game_config_tag() -> Seq<u8> {
    seq![103, 97, 109, 101, 95, 99, 111, 110, 102, 105, 103]
}

pub fn game_config_seed() -> (r: Vec<u8>)
    ensures
        r@ == game_config_tag(),
{
    let r: Vec<u8> = vec![103, 97, 109, 101, 95, 99, 111, 110, 102, 105, 103];
    assert(r@ =~= game_config_tag());
    r
}

/// The bytes of `b"search_config"`.
pub open spec fn search_config_tag() -> Seq<u8> {
    seq![115, 101, 97, 114, 99, 104, 95, 99, 111, 110, 102, 105, 103]
}

pub fn search_config_seed() -> (r: Vec<u8>)
    ensures
        r@ == search_config_tag(),
{
    let r: Vec<u8> = vec![115, 101, 97, 114, 99, 104, 95, 99, 111, 110, 102, 105, 103];
    assert(r@ =~= search_config_tag());
    r
}

} // verus!
