use h264_nalu::AccessUnitDelimiter;
use h264_nalu::BitStream;
use h264_nalu::BitStreamError;
use h264_nalu::Decoder;
use h264_nalu::NalUnit;
use h264_nalu::NalUnitPayload;
use h264_nalu::NalUnitStream;
use h264_nalu::NalUnitStreamError;
use h264_nalu::ParseError;
use h264_nalu::ScalingList;
use h264_nalu::SignedExpGolombCode;
use h264_nalu::SliceData;
use h264_nalu::SliceHeader;
use h264_nalu::SliceTypeName;
use h264_nalu::UnsignedExpGolombCode;

#[test]
fn parse_pic_param_set() {}

#[test]
fn read_sized_consumes_exactly_the_width() {
    let data = [0xAB, 0xCD];
    let mut stream = BitStream::new(&data);
    assert_eq!(stream.remaining(), 16);
    assert!(stream.byte_aligned());
    assert_eq!(stream.read(4), Ok(0xA));
    assert_eq!(stream.remaining(), 12);
    assert!(!stream.byte_aligned());
    assert_eq!(stream.read(7), Ok(0b1011110));
    assert_eq!(stream.remaining(), 5);
    assert_eq!(stream.read(5), Ok(0b01101));
    assert_eq!(stream.remaining(), 0);
}

#[test]
fn read_bit_and_skip() {
    let data = [0b1010_0000, 0xFF];
    let mut stream = BitStream::new(&data);
    assert_eq!(stream.read_bit(), Ok(true));
    assert_eq!(stream.read_bit(), Ok(false));
    assert!(stream.skip(6).is_ok());
    assert!(stream.byte_aligned());
    assert_eq!(stream.remaining(), 8);
    assert_eq!(stream.read(8), Ok(0xFF));
    assert_eq!(stream.read_bit(), Err(BitStreamError::NotEnoughData));
}

#[test]
fn read_signed_is_twos_complement() {
    let data = [0b1010_0000];
    let mut stream = BitStream::new(&data);
    assert_eq!(stream.read_signed(3), Ok(-3));
    let data = [0b0110_0000];
    let mut stream = BitStream::new(&data);
    assert_eq!(stream.read_signed(3), Ok(3));
}

#[test]
fn read_errors() {
    let data = [0xAB];
    let mut stream = BitStream::new(&data);
    assert_eq!(stream.read(65), Err(BitStreamError::TooLarge));
    assert_eq!(stream.read(9), Err(BitStreamError::NotEnoughData));
    assert_eq!(stream.skip(9), Err(BitStreamError::NotEnoughData));
    assert_eq!(stream.read(8), Ok(0xAB));
}

#[test]
fn read_all_returns_the_remaining_bytes() {
    let data = [1, 2, 3];
    let mut stream = BitStream::new(&data);
    assert!(stream.skip(8).is_ok());
    assert_eq!(stream.read_all(), vec![2, 3]);
    assert_eq!(stream.remaining(), 0);
}

#[test]
fn exp_golomb_table() {
    // Table 9-1: codewords 1, 010, 011, 00100, 00101, 00110, 00111.
    let cases: [(u8, u64); 7] = [
        (0b1000_0000, 0),
        (0b0100_0000, 1),
        (0b0110_0000, 2),
        (0b0010_0000, 3),
        (0b0010_1000, 4),
        (0b0011_0000, 5),
        (0b0011_1000, 6),
    ];
    for (byte, expected) in cases {
        let data = [byte];
        let mut stream = BitStream::new(&data);
        assert_eq!(
            UnsignedExpGolombCode::read(&mut stream),
            Ok(UnsignedExpGolombCode(expected))
        );
    }
}

#[test]
fn exp_golomb_signed_mapping() {
    // Unsigned 0, 1, 2, 3, 4 map to signed 0, 1, -1, 2, -2.
    let cases: [(u8, i64); 5] = [
        (0b1000_0000, 0),
        (0b0100_0000, 1),
        (0b0110_0000, -1),
        (0b0010_0000, 2),
        (0b0010_1000, -2),
    ];
    for (byte, expected) in cases {
        let data = [byte];
        let mut stream = BitStream::new(&data);
        assert_eq!(
            SignedExpGolombCode::read(&mut stream),
            Ok(SignedExpGolombCode(expected))
        );
    }
}

#[test]
fn exp_golomb_needs_a_stop_bit() {
    let data = [0x00];
    let mut stream = BitStream::new(&data);
    assert_eq!(
        UnsignedExpGolombCode::read(&mut stream),
        Err(BitStreamError::NotEnoughData)
    );
}

#[test]
fn scaling_list_default_matrix() {
    // First delta -8 moves the scale from 8 to 0: the default matrix.
    // Signed -8 is unsigned code 16, codeword 000010001.
    let data = [0b0000_1000, 0b1000_0000];
    let mut stream = BitStream::new(&data);
    let list = ScalingList::read(&mut stream, 16).unwrap();
    assert!(list.use_default_scaling_matrix_flag);
    assert_eq!(list.list, vec![8u8; 16]);
}

#[test]
fn scaling_list_stops_at_a_zero_scale() {
    // First delta +1 gives scale 9; the next delta -9 gives scale 0,
    // which repeats 9 for every remaining entry.
    // Signed +1 is codeword 010; signed -9 is unsigned 18, 000010011.
    let data = [0b0100_0001, 0b0011_0000];
    let mut stream = BitStream::new(&data);
    let list = ScalingList::read(&mut stream, 16).unwrap();
    assert!(!list.use_default_scaling_matrix_flag);
    assert_eq!(list.list, vec![9u8; 16]);
}

#[test]
fn framer_round_trip_with_emulation() {
    let data = vec![0, 0, 0, 1, 0xAA, 0xBB, 0, 0, 3, 1, 0, 0, 0, 1];
    let mut stream = NalUnitStream::new(data);
    assert_eq!(stream.next_unit(), Ok(Some(vec![0xAA, 0xBB, 0, 0, 1])));
    assert_eq!(stream.next_unit(), Ok(Some(vec![])));
    assert_eq!(stream.next_unit(), Ok(None));
}

#[test]
fn framer_start_code_not_found() {
    let mut stream = NalUnitStream::new(vec![1, 2, 3]);
    assert_eq!(stream.next_unit(), Err(NalUnitStreamError::StartCodeNotFound));
    let mut stream = NalUnitStream::new(vec![0, 0, 2, 1]);
    assert_eq!(stream.next_unit(), Err(NalUnitStreamError::StartCodeNotFound));
}

#[test]
fn framer_invalid_emulation() {
    let mut stream = NalUnitStream::new(vec![0, 0, 0, 1, 0, 0, 4]);
    assert_eq!(stream.next_unit(), Err(NalUnitStreamError::InvalidEmulation));
    let mut stream = NalUnitStream::new(vec![0, 0, 0, 1, 0, 0, 2]);
    assert_eq!(stream.next_unit(), Err(NalUnitStreamError::InvalidEmulation));
}

#[test]
fn framer_too_many_zeros() {
    let mut stream = NalUnitStream::new(vec![0, 0, 0, 1, 0, 0, 0, 0, 1]);
    assert_eq!(stream.next_unit(), Err(NalUnitStreamError::TooManyZeros));
}

#[test]
fn registry_find_and_overwrite() {
    let mut decoder = Decoder::new();
    assert!(decoder.find_sequence_parameter_set(UnsignedExpGolombCode(0)).is_none());
    assert!(decoder.find_picture_parameter_set(UnsignedExpGolombCode(7)).is_none());
    assert!(decoder.find_sequence_parameter_set(UnsignedExpGolombCode(1000)).is_none());

    let data = [0x42, 0x80, 0x28, 0xDA, 0x07, 0xC0, 0x89, 0xE5, 0x96, 0x01, 0xB4, 0x28, 0x4D, 0x40];
    let mut stream = BitStream::new(&data);
    let mut sps = h264_nalu::SequenceParameterSet::read(&mut stream).unwrap();
    sps.seq_parameter_set_id = UnsignedExpGolombCode(3);
    let mut second = sps.clone();
    second.level_idc = 51;

    decoder.set_sequence_parameter_set(sps);
    let found = decoder.find_sequence_parameter_set(UnsignedExpGolombCode(3)).unwrap();
    assert_eq!(found.level_idc, 40);
    assert!(decoder.find_sequence_parameter_set(UnsignedExpGolombCode(2)).is_none());

    decoder.set_sequence_parameter_set(second);
    let found = decoder.find_sequence_parameter_set(UnsignedExpGolombCode(3)).unwrap();
    assert_eq!(found.level_idc, 51);
}

#[test]
fn nal_unit_header_and_unknown_payload() {
    let data = [0x65, 0xAB, 0xCD];
    let mut stream = BitStream::new(&data);
    let decoder = Decoder::new();
    let unit = NalUnit::read(&mut stream, &decoder).unwrap();
    assert_eq!(unit.header.ref_idc, 3);
    assert_eq!(unit.header.ty, 5);
    assert!(!unit.header.svc_extension_flag);
    match unit.payload {
        NalUnitPayload::Unknown(bytes) => assert_eq!(bytes, vec![0xAB, 0xCD]),
        other => panic!("expected an unknown payload, got {:?}", other),
    }
}

#[test]
fn access_unit_delimiter_payload() {
    let data = [0x09, 0x30];
    let mut stream = BitStream::new(&data);
    let decoder = Decoder::new();
    let unit = NalUnit::read(&mut stream, &decoder).unwrap();
    assert_eq!(unit.header.ty, 9);
    match unit.payload {
        NalUnitPayload::AccessUnitDelimiter(aud) => {
            assert_eq!(aud, AccessUnitDelimiter { primary_pic_type: 1 });
        },
        other => panic!("expected an access unit delimiter, got {:?}", other),
    }
}

#[test]
fn end_to_end_sps_and_pps() {
    let data = vec![
        0, 0, 0, 1, 103, 66, 128, 40, 218, 7, 192, 137, 229, 150, 1, 180, 40, 77, 64, 0, 0, 0, 1,
        104, 206, 6, 242,
    ];
    let mut stream = NalUnitStream::new(data);
    let mut decoder = Decoder::new();

    let first = stream.next(&mut decoder).unwrap().unwrap();
    assert_eq!(first.header.ty, 7);
    match &first.payload {
        NalUnitPayload::SequenceParameterSet(sps) => {
            assert_eq!(sps.profile_idc, 66);
            assert!(sps.constraint_set0_flag);
            assert_eq!(sps.level_idc, 40);
            let id = sps.seq_parameter_set_id;
            assert!(decoder.find_sequence_parameter_set(id).is_some());
        },
        other => panic!("expected a sequence parameter set, got {:?}", other),
    }

    let second = stream.next(&mut decoder).unwrap().unwrap();
    assert_eq!(second.header.ty, 8);
    match &second.payload {
        NalUnitPayload::PictureParameterSet(pps) => {
            let id = pps.pic_parameter_set_id;
            assert!(decoder.find_picture_parameter_set(id).is_some());
        },
        other => panic!("expected a picture parameter set, got {:?}", other),
    }

    assert!(matches!(stream.next(&mut decoder), Ok(None)));
}

#[test]
fn payload_error_is_propagated() {
    // A start code followed by a bare SPS header byte: the payload runs
    // out of bits.
    let mut stream = NalUnitStream::new(vec![0, 0, 0, 1, 103]);
    let mut decoder = Decoder::new();
    assert!(matches!(
        stream.next(&mut decoder),
        Err(NalUnitStreamError::PayloadError(ParseError::NotEnoughData))
    ));
}

#[test]
fn slice_type_names() {
    assert_eq!(SliceTypeName::try_from(0), Ok(SliceTypeName::P));
    assert_eq!(SliceTypeName::try_from(1), Ok(SliceTypeName::B));
    assert_eq!(SliceTypeName::try_from(2), Ok(SliceTypeName::I));
    assert_eq!(SliceTypeName::try_from(3), Ok(SliceTypeName::SP));
    assert_eq!(SliceTypeName::try_from(4), Ok(SliceTypeName::SI));
    assert_eq!(SliceTypeName::try_from(9), Ok(SliceTypeName::SI));
    assert!(SliceTypeName::try_from(10).is_err());
}

#[test]
fn slice_data_needs_registered_parameter_sets() {
    let decoder = Decoder::new();
    let header = SliceHeader {
        first_mb_in_slice: UnsignedExpGolombCode(0),
        slice_type: UnsignedExpGolombCode(2),
        pic_parameter_set_id: UnsignedExpGolombCode(0),
        colour_plane_id: None,
        frame_num: 0,
        field_pic_flag: false,
        bottom_field_flag: None,
        idr_pic_id: None,
        pic_order_cnt_lsb: None,
        delta_pic_order_cnt_bottom: None,
        delta_pic_order_cnt_0: None,
        delta_pic_order_cnt_1: None,
        redundant_pic_cnt: None,
        direct_spatial_mv_pred_flag: None,
        num_ref_idx_active_override_flag: None,
        num_ref_idx_l0_active_minus1: None,
        num_ref_idx_l1_active_minus1: None,
        ref_pic_list_modification: None,
        cabac_init_idc: None,
        slice_qp_delta: SignedExpGolombCode(0),
        sp_for_switch_flag: None,
        slice_qs_delta: None,
        disable_deblocking_filter_idc: None,
        slice_alpha_c0_offset_div2: None,
        slice_beta_offset_div2: None,
        slice_group_change_cycle: None,
    };
    assert_eq!(header.slice_type_name(), SliceTypeName::I);
    assert_eq!(
        SliceData::read(&decoder, &header),
        Err(ParseError::MissingParameterSet)
    );
}
