use jerasure_rs::erasure::{CodingMethod, ErasureCode, ErasureCodeBuilder, Technique};
use jerasure_rs::{CodeWord, Error};

const BLK_SIZE: usize = 1 << 10;

fn blocks(n: usize, len: usize) -> Vec<Vec<u8>> {
    (0..n)
        .map(|b| (0..len).map(|i| (i * 31 + b * 7) as u8).collect())
        .collect()
}

fn builder(k: i32, m: i32, method: CodingMethod, tech: Technique) -> ErasureCodeBuilder {
    ErasureCodeBuilder::new()
        .coding_method(method)
        .k(k)
        .m(m)
        .tech(tech)
}

fn matrix_code(method: CodingMethod) -> ErasureCode {
    builder(4, 2, method, Technique::Matrix).build().unwrap()
}

#[test]
fn build_keeps_the_parameters() {
    let ec = matrix_code(CodingMethod::Cauchy);
    assert_eq!(ec.k(), 4);
    assert_eq!(ec.m(), 2);
    assert_eq!(ec.w().to_u8(), 8);
    assert_eq!(ec.tech(), Technique::Matrix);
    assert_eq!(ec.coding_method(), CodingMethod::Cauchy);
    assert_eq!(ec.packet_size(), None);

    let ec = builder(4, 2, CodingMethod::Cauchy, Technique::Schedule)
        .packet_size(128)
        .w(CodeWord::W16)
        .build()
        .unwrap();
    assert_eq!(ec.tech(), Technique::Schedule);
    assert_eq!(ec.packet_size(), Some(128));
    assert_eq!(ec.w().to_u8(), 16);

    // the Matrix technique has no packets
    let ec = builder(4, 2, CodingMethod::ReedSolVand, Technique::Matrix)
        .packet_size(64)
        .build()
        .unwrap();
    assert_eq!(ec.packet_size(), None);
}

#[test]
fn build_needs_every_required_parameter() {
    let res = ErasureCodeBuilder::new().build();
    assert!(matches!(res, Err(Error::InvalidArguments(_))));
    let res = ErasureCodeBuilder::new()
        .k(4)
        .m(2)
        .tech(Technique::Matrix)
        .build();
    assert!(matches!(res, Err(Error::InvalidArguments(_))));
    let res = ErasureCodeBuilder::new()
        .k(4)
        .coding_method(CodingMethod::Cauchy)
        .tech(Technique::Matrix)
        .build();
    assert!(matches!(res, Err(Error::InvalidArguments(_))));
}

#[test]
fn technique_defaults_to_matrix() {
    let ec = ErasureCodeBuilder::new()
        .k(4)
        .m(2)
        .coding_method(CodingMethod::Cauchy)
        .build()
        .unwrap();
    assert_eq!(ec.tech(), Technique::Matrix);
    assert_eq!(ec.packet_size(), None);
    let ec = ErasureCodeBuilder::new()
        .k(4)
        .m(2)
        .w(CodeWord::Other(12))
        .coding_method(CodingMethod::Cauchy)
        .build();
    assert!(matches!(ec, Err(Error::NotSupported(_))));
}

#[test]
fn canonical_widths_count_however_written() {
    for w in [8u8, 16, 32] {
        let ec = builder(4, 2, CodingMethod::ReedSolVand, Technique::Matrix)
            .w(CodeWord::Other(w))
            .build()
            .unwrap();
        assert_eq!(ec.w().to_u8(), w);
    }
}

#[test]
fn packet_codes_need_whole_packets_per_word() {
    // packet_size * w = 128 * 8 = 1024 bytes
    for tech in [
        Technique::BitMatrix,
        Technique::Schedule,
        Technique::ScheduleCache,
    ] {
        let ec = builder(4, 2, CodingMethod::Cauchy, tech)
            .packet_size(128)
            .build()
            .unwrap();
        assert!(ec.check_buffers(&blocks(4, 2048), &blocks(2, 2048)).is_ok());
        let res = ec.check_buffers(&blocks(4, 512), &blocks(2, 512));
        assert!(matches!(res, Err(Error::InvalidArguments(_))));
        let res = ec.plan_decode(&blocks(4, 1032), &blocks(2, 1032), &[1]);
        assert!(matches!(res, Err(Error::InvalidArguments(_))));
        // alignment is checked first
        let res = ec.check_buffers(&blocks(4, 1001), &blocks(2, 1001));
        assert!(matches!(res, Err(Error::NotAligned(1001))));
    }
    // the Matrix technique has no packets
    let ec = matrix_code(CodingMethod::Cauchy);
    assert!(ec.check_buffers(&blocks(4, 512), &blocks(2, 512)).is_ok());
}

#[test]
fn reed_sol_supports_only_matrix() {
    assert!(builder(4, 2, CodingMethod::ReedSolVand, Technique::Matrix).build().is_ok());
    for tech in [
        Technique::BitMatrix,
        Technique::Schedule,
        Technique::ScheduleCache,
    ] {
        let ec = builder(4, 2, CodingMethod::ReedSolVand, tech).build();
        assert!(matches!(ec, Err(Error::NotSupported(_))));
        let ec = builder(4, 2, CodingMethod::ReedSolVand, tech)
            .packet_size(128)
            .build();
        assert!(matches!(ec, Err(Error::NotSupported(_))));
    }
}

#[test]
fn matrix_needs_a_canonical_width() {
    for method in [CodingMethod::ReedSolVand, CodingMethod::Cauchy] {
        let ec = builder(4, 2, method, Technique::Matrix)
            .w(CodeWord::Other(12))
            .build();
        assert!(matches!(ec, Err(Error::NotSupported(_))));
    }
    let ec = builder(4, 2, CodingMethod::Cauchy, Technique::BitMatrix)
        .w(CodeWord::Other(12))
        .packet_size(128)
        .build();
    assert!(ec.is_ok());
}

#[test]
fn build_rejects_bad_counts() {
    for method in [CodingMethod::ReedSolVand, CodingMethod::Cauchy] {
        let ec = builder(-1, 2, method, Technique::Matrix).build();
        assert!(matches!(ec, Err(Error::InvalidArguments(_))));
        let ec = builder(4, -1, method, Technique::Matrix).build();
        assert!(matches!(ec, Err(Error::InvalidArguments(_))));
        let ec = builder(0, 2, method, Technique::Matrix).build();
        assert!(matches!(ec, Err(Error::InvalidArguments(_))));
        // k + m > 2^8
        let ec = builder(255, 2, method, Technique::Matrix).build();
        assert!(matches!(ec, Err(Error::InvalidArguments(_))));
        // k + m == 2^8 is the largest code
        assert!(builder(254, 2, method, Technique::Matrix).build().is_ok());
    }
    let ec = builder(i32::MAX, 2, CodingMethod::Cauchy, Technique::Matrix)
        .w(CodeWord::W32)
        .build();
    assert!(matches!(ec, Err(Error::InvalidArguments(_))));
    let ec = builder(4, 2, CodingMethod::Cauchy, Technique::Matrix)
        .w(CodeWord::Other(0))
        .build();
    assert!(matches!(ec, Err(Error::InvalidArguments(_))));
    let ec = builder(4, 2, CodingMethod::Cauchy, Technique::BitMatrix)
        .w(CodeWord::Other(33))
        .packet_size(128)
        .build();
    assert!(matches!(ec, Err(Error::InvalidArguments(_))));
}

#[test]
fn build_rejects_bad_packet_sizes() {
    for tech in [
        Technique::BitMatrix,
        Technique::Schedule,
        Technique::ScheduleCache,
    ] {
        let ec = builder(4, 2, CodingMethod::Cauchy, tech).build();
        assert!(matches!(ec, Err(Error::InvalidArguments(_))));
        let ec = builder(4, 2, CodingMethod::Cauchy, tech)
            .packet_size(-1)
            .build();
        assert!(matches!(ec, Err(Error::InvalidArguments(_))));
        let ec = builder(4, 2, CodingMethod::Cauchy, tech)
            .packet_size(42)
            .build();
        assert!(matches!(ec, Err(Error::InvalidArguments(_))));
        let ec = builder(4, 2, CodingMethod::Cauchy, tech)
            .packet_size(128)
            .build();
        assert!(ec.is_ok());
    }
}

#[test]
fn check_packet_size_gives_the_size() {
    let b = ErasureCodeBuilder::new().packet_size(64);
    assert_eq!(b.check_packet_size().unwrap(), 64);
    let b = ErasureCodeBuilder::new();
    assert!(matches!(b.check_packet_size(), Err(Error::InvalidArguments(_))));
    let b = ErasureCodeBuilder::new().packet_size(12);
    assert!(matches!(b.check_packet_size(), Err(Error::InvalidArguments(_))));
}

#[test]
fn schedule_cache_needs_two_parities() {
    for m in [1, 3, 4] {
        let ec = builder(4, m, CodingMethod::Cauchy, Technique::ScheduleCache)
            .packet_size(128)
            .build();
        assert!(matches!(ec, Err(Error::NotSupported(_))));
    }
    // m is checked before the packet size
    let ec = builder(4, 3, CodingMethod::Cauchy, Technique::ScheduleCache)
        .packet_size(42)
        .build();
    assert!(matches!(ec, Err(Error::NotSupported(_))));
    let ec = builder(4, 2, CodingMethod::Cauchy, Technique::ScheduleCache)
        .packet_size(128)
        .build()
        .unwrap();
    assert_eq!(ec.tech(), Technique::ScheduleCache);
}

#[test]
fn unimplemented_methods_are_not_supported() {
    for method in [
        CodingMethod::Liberation,
        CodingMethod::Liber8tion,
        CodingMethod::BlaumRoth,
    ] {
        for tech in [Technique::Matrix, Technique::BitMatrix] {
            let ec = builder(4, 2, method, tech).packet_size(128).build();
            assert!(matches!(ec, Err(Error::NotSupported(_))));
        }
    }
}

#[test]
fn encode_buffers_are_checked() {
    let ec = matrix_code(CodingMethod::Cauchy);
    assert!(ec.check_buffers(&blocks(4, BLK_SIZE), &blocks(2, BLK_SIZE)).is_ok());
    // not aligned
    let res = ec.check_buffers(&blocks(4, BLK_SIZE + 1), &blocks(2, BLK_SIZE + 1));
    assert!(matches!(res, Err(Error::NotAligned(n)) if n == BLK_SIZE + 1));
    // not enough data
    let res = ec.check_buffers(&blocks(3, BLK_SIZE), &blocks(2, BLK_SIZE));
    assert!(matches!(res, Err(Error::InvalidArguments(_))));
    // not enough code blocks
    let res = ec.check_buffers(&blocks(4, BLK_SIZE), &blocks(1, BLK_SIZE));
    assert!(matches!(res, Err(Error::InvalidArguments(_))));
    // empty data
    let res = ec.check_buffers(&[], &blocks(2, BLK_SIZE));
    assert!(matches!(res, Err(Error::InvalidArguments(_))));
    // one parity block of another, aligned length
    let mut parity = blocks(2, BLK_SIZE);
    parity[1] = vec![0; BLK_SIZE + 8];
    let res = ec.check_buffers(&blocks(4, BLK_SIZE), &parity);
    assert!(matches!(res, Err(Error::InvalidArguments(_))));
    // one data block misaligned
    let mut data = blocks(4, BLK_SIZE);
    data[2] = vec![0; BLK_SIZE + 3];
    let res = ec.check_buffers(&data, &blocks(2, BLK_SIZE));
    assert!(matches!(res, Err(Error::NotAligned(n)) if n == BLK_SIZE + 3));
}

#[test]
fn decode_rejects_out_of_range_indices() {
    let ec = matrix_code(CodingMethod::Cauchy);
    let data = blocks(4, BLK_SIZE);
    let code = blocks(2, BLK_SIZE);
    let res = ec.plan_decode(&data, &code, &[-1]);
    assert!(matches!(res, Err(Error::InvalidArguments(_))));
    let res = ec.plan_decode(&data, &code, &[ec.k() + ec.m()]);
    assert!(matches!(res, Err(Error::InvalidArguments(_))));
    let res = ec.plan_decode(&data, &code, &[0, 1, 2, 9]);
    assert!(matches!(res, Err(Error::InvalidArguments(_))));
}

#[test]
fn decode_rejects_too_many_erasures() {
    let ec = matrix_code(CodingMethod::ReedSolVand);
    let data = blocks(4, BLK_SIZE);
    let code = blocks(2, BLK_SIZE);
    let res = ec.plan_decode(&data, &code, &[0, 4, 5]);
    assert!(matches!(res, Err(Error::TooManyErasure(3, 2))));
    // checked before the buffers
    let res = ec.plan_decode(&[], &[], &[0, 4, 5]);
    assert!(matches!(res, Err(Error::TooManyErasure(3, 2))));
    // repeats count once
    let list = ec.plan_decode(&data, &code, &[5, 0, 5, 0]).unwrap();
    assert_eq!(list, vec![0, 5, -1]);
}

#[test]
fn decode_buffers_are_checked() {
    let ec = matrix_code(CodingMethod::Cauchy);
    let res = ec.plan_decode(&blocks(4, BLK_SIZE + 1), &blocks(2, BLK_SIZE + 1), &[0]);
    assert!(matches!(res, Err(Error::NotAligned(_))));
    let res = ec.plan_decode(&[], &blocks(2, BLK_SIZE), &[0]);
    assert!(matches!(res, Err(Error::InvalidArguments(_))));
}

#[test]
fn decode_plan_lists_the_erasures() {
    let ec = matrix_code(CodingMethod::Cauchy);
    let data = blocks(4, BLK_SIZE);
    let code = blocks(2, BLK_SIZE);
    assert_eq!(ec.plan_decode(&data, &code, &[]).unwrap(), vec![-1]);
    assert_eq!(ec.plan_decode(&data, &code, &[3]).unwrap(), vec![3, -1]);
    assert_eq!(ec.plan_decode(&data, &code, &[5, 2]).unwrap(), vec![2, 5, -1]);
    assert_eq!(ec.sanitize_erasures(&[4, 1, 4]).unwrap(), vec![1, 4, -1]);
}

#[test]
fn row_k_ones_only_for_reed_sol() {
    assert_eq!(matrix_code(CodingMethod::ReedSolVand).row_k_ones(), 1);
    assert_eq!(matrix_code(CodingMethod::Cauchy).row_k_ones(), 0);
}

#[test]
fn decode_status_maps_failures() {
    assert!(ErasureCode::decode_status(0).is_ok());
    assert!(matches!(ErasureCode::decode_status(-1), Err(Error::Other(_))));
}

#[test]
fn encode_parity_is_the_xor_of_the_data() {
    let ec = matrix_code(CodingMethod::Cauchy);
    let data = vec![
        vec![0x01, 0x02, 0x04, 0x08, 0x10, 0x20, 0x40, 0x80],
        vec![0xff, 0x00, 0xff, 0x00, 0xff, 0x00, 0xff, 0x00],
        vec![0x0f, 0x0f, 0x0f, 0x0f, 0xf0, 0xf0, 0xf0, 0xf0],
        vec![0x11, 0x22, 0x33, 0x44, 0x55, 0x66, 0x77, 0x88],
    ];
    let copy = data.clone();
    let mut parity = [0xaa_u8; 8];
    ec.encode_parity(&data, &mut parity).unwrap();
    assert_eq!(parity, [0xe0, 0x2f, 0xc7, 0x43, 0x4a, 0xb6, 0x38, 0xf8]);
    assert_eq!(data, copy);
    // the parity and any k - 1 data blocks give back the missing one
    let gf = jerasure_rs::galois::GaloisField::try_from_code_word(CodeWord::W8).unwrap();
    let mut lost = parity.to_vec();
    for b in [0, 1, 3] {
        gf.region_acc(&mut lost, &data[b]).unwrap();
    }
    assert_eq!(lost, data[2]);
}

#[test]
fn encode_parity_rejects_bad_buffers() {
    let ec = matrix_code(CodingMethod::Cauchy);
    let mut parity = [7u8; 8];
    let res = ec.encode_parity(&blocks(3, 8), &mut parity);
    assert!(matches!(res, Err(Error::InvalidArguments(_))));
    let res = ec.encode_parity(&blocks(4, 16), &mut parity);
    assert!(matches!(res, Err(Error::InvalidArguments(_))));
    let mut odd = [7u8; 9];
    let res = ec.encode_parity(&blocks(4, 9), &mut odd);
    assert!(matches!(res, Err(Error::NotAligned(9))));
    assert_eq!(parity, [7u8; 8]);
    assert_eq!(odd, [7u8; 9]);
}
