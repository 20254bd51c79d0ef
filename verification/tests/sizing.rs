use anchor_spl::token_interface::spl_pod::optional_keys::OptionalNonZeroPubkey;
use anchor_spl::token_interface::spl_token_metadata_interface::state::TokenMetadata as Interface;
use nft_minter::address::Address;
use nft_minter::metadata::TokenMetadata;

fn sample(name: &str, symbol: &str, uri: &str, pairs: &[(&str, &str)]) -> TokenMetadata {
    TokenMetadata {
        update_authority: Some(Address::new([7u8; 32])),
        mint: Address::new([9u8; 32]),
        name: name.to_string(),
        symbol: symbol.to_string(),
        uri: uri.to_string(),
        additional_metadata: pairs.iter().map(|(k, v)| (k.to_string(), v.to_string())).collect(),
    }
}

#[test]
fn tlv_size_counts_header_addresses_and_strings() {
    let m = sample("Sword", "SWD", "https://x/1.json", &[("level", "1")]);
    // 12 header + 64 addresses + (4+5) + (4+3) + (4+16) + 4 count + (4+5) + (4+1)
    assert_eq!(m.tlv_size_of().unwrap(), 130);
    assert_eq!(m.measure(), Some(130));
}

#[test]
fn tlv_size_of_the_empty_payload() {
    let m = sample("", "", "", &[]);
    assert_eq!(m.tlv_size_of().unwrap(), 12 + 64 + 4 + 4 + 4 + 4);
    assert_eq!(m.measure(), Some(92));
}

#[test]
fn tlv_size_counts_bytes_not_characters() {
    // "é" is two bytes, "剑" is three, "🗡" is four.
    let m = sample("é", "剑", "🗡", &[]);
    assert_eq!(m.tlv_size_of().unwrap(), 92 + 2 + 3 + 4);
    assert_eq!(m.measure(), Some(101));
}

#[test]
fn tlv_size_does_not_depend_on_the_update_authority() {
    let mut m = sample("Sword", "SWD", "https://x/1.json", &[("level", "1")]);
    m.update_authority = None;
    assert_eq!(m.tlv_size_of().unwrap(), 130);
    m.update_authority = Some(Address::new([0u8; 32]));
    assert_eq!(m.tlv_size_of().unwrap(), 130);
}

#[test]
fn tlv_size_counts_every_pair() {
    let m = sample("a", "b", "c", &[("k1", "v1"), ("key2", ""), ("", "value3")]);
    let pairs = (4 + 2 + 4 + 2) + (4 + 4 + 4) + (4 + 4 + 6);
    assert_eq!(m.tlv_size_of().unwrap(), 92 + 3 + pairs);
    assert_eq!(m.measure(), Some(92 + 3 + pairs));
}

#[test]
fn tlv_size_agrees_with_the_interface_crate() {
    let m = sample("Shield of Ages", "SHD", "https://example.org/meta/2.json", &[("level", "1"), ("rarity", "epic")]);
    let theirs = Interface {
        update_authority: OptionalNonZeroPubkey(anchor_lang::prelude::Pubkey::new_from_array([7u8; 32])),
        mint: anchor_lang::prelude::Pubkey::new_from_array([9u8; 32]),
        name: m.name.clone(),
        symbol: m.symbol.clone(),
        uri: m.uri.clone(),
        additional_metadata: m.additional_metadata.clone(),
    };
    assert_eq!(m.tlv_size_of().unwrap(), theirs.tlv_size_of().unwrap());
    assert_eq!(m.measure(), Some(theirs.tlv_size_of().unwrap()));
}

#[test]
fn tlv_size_grows_with_each_field() {
    let base = sample("Sword", "SWD", "https://x/1.json", &[("level", "1")]).tlv_size_of().unwrap();
    let longer_name = sample("Sword!", "SWD", "https://x/1.json", &[("level", "1")]);
    let longer_symbol = sample("Sword", "SWDX", "https://x/1.json", &[("level", "1")]);
    let longer_uri = sample("Sword", "SWD", "https://x/10.json", &[("level", "1")]);
    let longer_value = sample("Sword", "SWD", "https://x/1.json", &[("level", "10")]);
    let more_pairs = sample("Sword", "SWD", "https://x/1.json", &[("level", "1"), ("", "")]);
    assert_eq!(longer_name.tlv_size_of().unwrap(), base + 1);
    assert_eq!(longer_symbol.tlv_size_of().unwrap(), base + 1);
    assert_eq!(longer_uri.tlv_size_of().unwrap(), base + 1);
    assert_eq!(longer_value.tlv_size_of().unwrap(), base + 1);
    assert_eq!(more_pairs.tlv_size_of().unwrap(), base + 8);
}

#[test]
fn space_is_the_stored_size_less_one_prefix() {
    let m = sample("Sword", "SWD", "https://x/1.json", &[("level", "1")]);
    assert_eq!(m.space().unwrap(), 126);
    assert_eq!(m.space().unwrap() + 4, m.tlv_size_of().unwrap());
}

#[test]
fn space_exceeds_the_encoded_payload_by_eight_bytes() {
    for pairs in [&[][..], &[("level", "1")][..], &[("a", "b"), ("c", "d"), ("e", "f")][..]] {
        let m = sample("Sword", "SWD", "https://x/1.json", pairs);
        let theirs = Interface {
            update_authority: OptionalNonZeroPubkey(anchor_lang::prelude::Pubkey::new_from_array([7u8; 32])),
            mint: anchor_lang::prelude::Pubkey::new_from_array([9u8; 32]),
            name: m.name.clone(),
            symbol: m.symbol.clone(),
            uri: m.uri.clone(),
            additional_metadata: m.additional_metadata.clone(),
        };
        // The interface's stored size is the encoded payload behind a 12-byte header.
        let encoded_len = theirs.tlv_size_of().unwrap() - 12;
        assert_eq!(m.space().unwrap(), encoded_len + 8);
    }
}
