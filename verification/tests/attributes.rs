use cnproc::error::AttributeError;
use cnproc::generic::{find, nlattr};
use cnproc::wire::encode;

fn attr(nla_type: u16, value: &[u8]) -> nlattr<Vec<u8>> {
    nlattr::new(nla_type, value.to_vec())
}

#[test]
fn attribute_exact_bytes() {
    assert_eq!(
        nlattr::encode(0x0102, &[7, 8, 9]),
        vec![7, 0, 0x02, 0x01, 7, 8, 9]
    );
    assert_eq!(nlattr::encode(3, &[]), vec![4, 0, 3, 0]);
}

#[test]
fn attribute_of_a_number() {
    let a = nlattr::new(1, 0x0a0b_0c0du32);
    assert_eq!(a.nla_len, 8);
    assert_eq!(encode(&a), vec![8, 0, 1, 0, 0x0d, 0x0c, 0x0b, 0x0a]);
    assert_eq!(
        nlattr::iterate(&encode(&a)).unwrap(),
        vec![attr(1, &[0x0d, 0x0c, 0x0b, 0x0a])]
    );
}

#[test]
fn single_attribute_round_trip() {
    for len in 0..40usize {
        let value: Vec<u8> = (0..len).map(|i| i as u8 + 1).collect();
        let bytes = nlattr::encode(9, &value);
        assert_eq!(bytes.len(), 4 + len);
        let back = nlattr::iterate(&bytes).unwrap();
        assert_eq!(back, vec![attr(9, &value)]);
    }
}

#[test]
fn attribute_list_exact_bytes() {
    let list = vec![attr(1, &[0xaa]), attr(2, &[]), attr(3, &[1, 2, 3, 4, 5])];
    assert_eq!(
        encode(&list),
        vec![5, 0, 1, 0, 0xaa, 0, 0, 0, 4, 0, 2, 0, 9, 0, 3, 0, 1, 2, 3, 4, 5]
    );
}

#[test]
fn attribute_list_round_trip() {
    let mut list: Vec<nlattr<Vec<u8>>> = Vec::new();
    for n in 0..12u16 {
        let value: Vec<u8> = (0..n).map(|i| (i * 3 + n) as u8).collect();
        list.push(attr(100 + n, &value));
        let bytes = encode(&list);
        assert_eq!(nlattr::iterate(&bytes).unwrap(), list);
    }
}

#[test]
fn padding_after_the_last_attribute_is_accepted() {
    let bytes = vec![5, 0, 1, 0, 0xaa, 0, 0, 0];
    assert_eq!(nlattr::iterate(&bytes).unwrap(), vec![attr(1, &[0xaa])]);
    let bytes = vec![5, 0, 1, 0, 0xaa, 0];
    assert_eq!(nlattr::iterate(&bytes).unwrap(), vec![attr(1, &[0xaa])]);
}

#[test]
fn empty_buffer_holds_no_attribute() {
    assert_eq!(nlattr::iterate(&[]).unwrap(), Vec::new());
}

#[test]
fn length_under_header_is_malformed() {
    for len in 0..4u8 {
        assert_eq!(
            nlattr::iterate(&[len, 0, 1, 0, 9, 9, 9, 9]).unwrap_err(),
            AttributeError::Malformed
        );
    }
}

#[test]
fn length_past_the_buffer_is_malformed() {
    assert_eq!(
        nlattr::iterate(&[9, 0, 1, 0, 1, 2, 3, 4]).unwrap_err(),
        AttributeError::Malformed
    );
    assert_eq!(
        nlattr::iterate(&[4, 0, 1, 0, 8, 0, 2, 0, 1, 2, 3]).unwrap_err(),
        AttributeError::Malformed
    );
}

#[test]
fn partial_header_is_malformed() {
    for len in 1..4usize {
        assert_eq!(
            nlattr::iterate(&[4u8, 0, 1][..len]).unwrap_err(),
            AttributeError::Malformed
        );
    }
    assert_eq!(
        nlattr::iterate(&[4, 0, 1, 0, 4, 0]).unwrap_err(),
        AttributeError::Malformed
    );
}

#[test]
fn find_gives_the_first_of_a_type() {
    let list = vec![attr(5, &[1]), attr(7, &[2]), attr(5, &[3]), attr(9, &[])];
    assert_eq!(find(&list, 5), Some(0));
    assert_eq!(find(&list, 7), Some(1));
    assert_eq!(find(&list, 9), Some(3));
    assert_eq!(find(&list, 6), None);
    assert_eq!(find(&Vec::new(), 5), None);
}

#[test]
fn walking_step_by_step() {
    let bytes = vec![5, 0, 1, 0, 0xaa, 0, 0, 0, 4, 0, 2, 0, 9, 0, 3, 0, 1, 2, 3, 4, 5];
    let (first, at) = nlattr::next_at(&bytes, 0).unwrap().unwrap();
    assert_eq!(first, attr(1, &[0xaa]));
    assert_eq!(at, 8);
    let (second, at) = nlattr::next_at(&bytes, at).unwrap().unwrap();
    assert_eq!(second, attr(2, &[]));
    assert_eq!(at, 12);
    let (third, at) = nlattr::next_at(&bytes, at).unwrap().unwrap();
    assert_eq!(third, attr(3, &[1, 2, 3, 4, 5]));
    assert_eq!(at, 21);
    assert_eq!(nlattr::next_at(&bytes, at).unwrap(), None);
    assert_eq!(nlattr::next_at(&bytes, 100).unwrap(), None);
}

#[test]
fn a_step_yields_what_stands_before_a_bad_attribute() {
    let bytes = vec![4, 0, 1, 0, 8, 0, 2, 0, 1, 2, 3];
    let (first, at) = nlattr::next_at(&bytes, 0).unwrap().unwrap();
    assert_eq!(first, attr(1, &[]));
    assert_eq!(at, 4);
    assert_eq!(nlattr::next_at(&bytes, at).unwrap_err(), AttributeError::Malformed);
    assert_eq!(nlattr::iterate(&bytes).unwrap_err(), AttributeError::Malformed);
}

#[test]
fn the_next_offset_never_passes_the_buffer() {
    let bytes = vec![5, 0, 1, 0, 0xaa];
    let (_, at) = nlattr::next_at(&bytes, 0).unwrap().unwrap();
    assert_eq!(at, 5);
    let bytes = vec![5, 0, 1, 0, 0xaa, 0, 0];
    let (_, at) = nlattr::next_at(&bytes, 0).unwrap().unwrap();
    assert_eq!(at, 7);
}
