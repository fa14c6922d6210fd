use btg::encoding::{push_le, push_var_int};
use btg::script::{create_pk_script, create_sig_script, push_data};
use btg::transaction::{OutPoint, Tx, TxIn, TxOut};

#[test]
fn little_endian_bytes() {
    let mut out = Vec::new();
    push_le(&mut out, 0x0102_0304, 4);
    assert_eq!(out, vec![4, 3, 2, 1]);
}

#[test]
fn compact_size_lengths() {
    let cases: [(u64, Vec<u8>); 5] = [
        (0xfc, vec![0xfc]),
        (0xfd, vec![0xfd, 0xfd, 0x00]),
        (0xffff, vec![0xfd, 0xff, 0xff]),
        (0x1_0000, vec![0xfe, 0x00, 0x00, 0x01, 0x00]),
        (0x1_0000_0000, vec![0xff, 0, 0, 0, 0, 1, 0, 0, 0]),
    ];
    for (n, expected) in cases {
        let mut out = Vec::new();
        push_var_int(&mut out, n);
        assert_eq!(out, expected);
    }
}

#[test]
fn script_templates() {
    let hash = [0xabu8; 20];
    let mut expected = vec![0x76, 0xa9, 0x14];
    expected.extend_from_slice(&hash);
    expected.extend_from_slice(&[0x88, 0xac]);
    assert_eq!(create_pk_script(&hash), expected);

    let sig = [1u8; 71];
    let key = [2u8; 65];
    let mut expected = vec![71u8];
    expected.extend_from_slice(&sig);
    expected.push(65);
    expected.extend_from_slice(&key);
    assert_eq!(create_sig_script(&sig, &key), expected);
}

#[test]
fn long_pushes() {
    let mut out = Vec::new();
    push_data(&mut out, &[7u8; 80]);
    assert_eq!(&out[..2], &[0x4c, 80]);
    assert_eq!(out.len(), 82);
    let mut out = Vec::new();
    push_data(&mut out, &[7u8; 300]);
    assert_eq!(&out[..3], &[0x4d, 0x2c, 0x01]);
    assert_eq!(out.len(), 303);
}

#[test]
fn transaction_wire_format() {
    let tx = Tx {
        version: 2,
        inputs: vec![TxIn {
            prev_output: OutPoint { hash: vec![0x11; 32], index: 3 },
            sig_script: vec![0xaa, 0xbb],
            sequence: 0xffff_ffff,
        }],
        outputs: vec![TxOut { amount: 50000, pk_script: vec![0x51] }],
        lock_time: 7,
    };
    let expected = format!(
        "{}{}{}{}{}{}{}{}{}{}{}",
        "02000000",
        "01",
        "11".repeat(32),
        "03000000",
        "02aabb",
        "ffffffff",
        "01",
        "50c3000000000000",
        "01",
        "51",
        "07000000"
    );
    assert_eq!(tx.serialize_hex(), expected);
    assert_eq!(hex::encode(tx.serialize()), expected);
}
