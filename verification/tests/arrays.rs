use rustrument::error::Error;
use rustrument::protocols::onc_rpc::port_mapper::Mapping;
use rustrument::protocols::onc_rpc::xdr::arrays::{decode_array, decode_items, encode_array, encode_items};

#[test]
fn fixed_array_is_the_items_in_order() {
    let mut out = Vec::new();
    assert_eq!(encode_items(&vec![1u32, 2, 3], &mut out), Ok(()));
    assert_eq!(out, vec![0, 0, 0, 1, 0, 0, 0, 2, 0, 0, 0, 3]);
    assert_eq!(decode_items::<u32>(&out, 0, 3), Ok((vec![1, 2, 3], 12)));
    assert_eq!(decode_items::<u32>(&out, 0, 2), Ok((vec![1, 2], 8)));
    assert_eq!(decode_items::<u32>(&out, 4, 2), Ok((vec![2, 3], 12)));
    assert_eq!(decode_items::<u32>(&out, 0, 4), Err(Error::Malformed));
    assert_eq!(decode_items::<u32>(&out, 12, 0), Ok((vec![], 12)));
}

#[test]
fn variable_array_carries_its_length() {
    let items = vec![String::from("a"), String::from("bcdef")];
    let mut out = vec![0xee];
    assert_eq!(encode_array(&items, &mut out), Ok(()));
    assert_eq!(
        out,
        vec![0xee, 0, 0, 0, 2, 0, 0, 0, 1, b'a', 0, 0, 0, 0, 0, 0, 5, b'b', b'c', b'd', b'e', b'f', 0, 0, 0]
    );
    assert_eq!((out.len() - 1) % 4, 0);
    assert_eq!(decode_array::<String>(&out, 1), Ok((items, out.len())));
    assert_eq!(decode_array::<u32>(&[0, 0, 0, 0], 0), Ok((vec![], 4)));
}

#[test]
fn variable_array_must_be_complete() {
    assert_eq!(decode_array::<u32>(&[0, 0, 0, 2, 0, 0, 0, 1], 0), Err(Error::Malformed));
    assert_eq!(decode_array::<u32>(&[0, 0, 2], 0), Err(Error::Malformed));
    assert_eq!(decode_array::<bool>(&[0, 0, 0, 1, 0, 0, 0, 5], 0), Ok((vec![true], 8)));
}

#[test]
fn array_of_structures_round_trip() {
    let items: Vec<(i32, (bool, Vec<u8>))> = vec![(-1, (true, vec![1, 2, 3])), (7, (false, vec![])), (0, (true, vec![9; 9]))];
    let mut out = Vec::new();
    assert_eq!(encode_array(&items, &mut out), Ok(()));
    assert_eq!(out.len() % 4, 0);
    assert_eq!(decode_array::<(i32, (bool, Vec<u8>))>(&out, 0), Ok((items, out.len())));
}

#[test]
fn array_with_an_item_that_has_no_encoding_is_refused() {
    let items = vec![
        Mapping { prog: 1, vers: 1, prot: 6, port: 1 },
        Mapping { prog: 1, vers: 1, prot: 9, port: 1 },
    ];
    let mut out = vec![1, 2, 3];
    assert_eq!(encode_array(&items, &mut out), Err(Error::Malformed));
    assert_eq!(out, vec![1, 2, 3]);
    assert_eq!(encode_items(&items, &mut out), Err(Error::Malformed));
    assert_eq!(out, vec![1, 2, 3]);
}

#[test]
fn array_position_behind_the_end_is_malformed() {
    assert_eq!(decode_items::<u32>(&[0, 0, 0, 1], 5, 0), Err(Error::Malformed));
    assert_eq!(decode_items::<u32>(&[0, 0, 0, 1], 4, 0), Ok((vec![], 4)));
    assert_eq!(decode_array::<u32>(&[0, 0, 0, 0], 5), Err(Error::Malformed));
}
