use bmp5::bus::merge;
use bmp5::{Config, IIRFilter, Measurement, OutputDataRate, Oversampling};

const RATES: [(OutputDataRate, u8, u32); 32] = [
    (OutputDataRate::OutputDataRate0_125Hz, 0x1F, 8_000_000),
    (OutputDataRate::OutputDataRate0_250Hz, 0x1E, 4_000_000),
    (OutputDataRate::OutputDataRate0_5Hz, 0x1D, 2_000_000),
    (OutputDataRate::OutputDataRate1Hz, 0x1C, 1_000_000),
    (OutputDataRate::OutputDataRate2Hz, 0x1B, 500_000),
    (OutputDataRate::OutputDataRate3Hz, 0x1A, 333_333),
    (OutputDataRate::OutputDataRate4Hz, 0x19, 250_000),
    (OutputDataRate::OutputDataRate5Hz, 0x18, 200_000),
    (OutputDataRate::OutputDataRate10Hz, 0x17, 100_000),
    (OutputDataRate::OutputDataRate15Hz, 0x16, 66_667),
    (OutputDataRate::OutputDataRate20Hz, 0x15, 50_000),
    (OutputDataRate::OutputDataRate25Hz, 0x14, 40_000),
    (OutputDataRate::OutputDataRate30Hz, 0x13, 33_333),
    (OutputDataRate::OutputDataRate35Hz, 0x12, 28_571),
    (OutputDataRate::OutputDataRate40Hz, 0x11, 25_000),
    (OutputDataRate::OutputDataRate45Hz, 0x10, 22_222),
    (OutputDataRate::OutputDataRate50Hz, 0x0F, 20_000),
    (OutputDataRate::OutputDataRate60Hz, 0x0E, 16_667),
    (OutputDataRate::OutputDataRate70Hz, 0x0D, 14_286),
    (OutputDataRate::OutputDataRate80Hz, 0x0C, 12_500),
    (OutputDataRate::OutputDataRate89_6Hz, 0x0B, 11_161),
    (OutputDataRate::OutputDataRate100_2Hz, 0x0A, 9_980),
    (OutputDataRate::OutputDataRate110_1Hz, 0x09, 9_083),
    (OutputDataRate::OutputDataRate120Hz, 0x08, 8_333),
    (OutputDataRate::OutputDataRate129_8Hz, 0x07, 7_704),
    (OutputDataRate::OutputDataRate140Hz, 0x06, 7_143),
    (OutputDataRate::OutputDataRate149_3Hz, 0x05, 6_698),
    (OutputDataRate::OutputDataRate160Hz, 0x04, 6_250),
    (OutputDataRate::OutputDataRate179_2Hz, 0x03, 5_580),
    (OutputDataRate::OutputDataRate199_1Hz, 0x02, 5_023),
    (OutputDataRate::OutputDataRate218_5Hz, 0x01, 4_577),
    (OutputDataRate::OutputDataRate240Hz, 0x00, 4_167),
];

#[test]
fn oversampling_codes() {
    let all = [
        Oversampling::Oversampling1X,
        Oversampling::Oversampling2X,
        Oversampling::Oversampling4X,
        Oversampling::Oversampling8X,
        Oversampling::Oversampling16x,
        Oversampling::Oversampling32x,
        Oversampling::Oversampling64x,
        Oversampling::Oversampling128x,
    ];
    for (code, choice) in all.iter().enumerate() {
        assert_eq!(u8::from(*choice), code as u8);
    }
}

#[test]
fn iir_filter_codes() {
    let all = [
        IIRFilter::Bypass,
        IIRFilter::Coeff1,
        IIRFilter::Coeff3,
        IIRFilter::Coeff7,
        IIRFilter::Coeff15,
        IIRFilter::Coeff31,
        IIRFilter::Coeff63,
        IIRFilter::Coeff127,
    ];
    for (code, choice) in all.iter().enumerate() {
        assert_eq!(u8::from(*choice), code as u8);
    }
}

#[test]
fn output_data_rate_codes() {
    for (rate, code, _) in RATES {
        assert_eq!(u8::from(rate), code);
        let through_into: u8 = rate.into();
        assert_eq!(through_into, code);
    }
}

#[test]
fn output_data_rate_periods() {
    for (rate, _, period) in RATES {
        assert_eq!(rate.period_us(), period);
    }
    assert_eq!(OutputDataRate::OutputDataRate25Hz.period_us() / 4, 10_000);
    assert_eq!(OutputDataRate::OutputDataRate0_125Hz.period_us() / 4, 2_000_000);
}

#[test]
fn defaults() {
    assert_eq!(Oversampling::default(), Oversampling::Oversampling1X);
    assert_eq!(IIRFilter::default(), IIRFilter::Bypass);
    assert_eq!(OutputDataRate::default(), OutputDataRate::OutputDataRate25Hz);
    assert_eq!(
        Config::default(),
        Config {
            temperature_oversampling: Oversampling::Oversampling1X,
            temperature_iir_filter: IIRFilter::Bypass,
            pressure_oversampling: Oversampling::Oversampling1X,
            pressure_iir_filter: IIRFilter::Bypass,
            output_data_rate: OutputDataRate::OutputDataRate25Hz,
        }
    );
}

#[test]
fn merge_is_the_masked_update() {
    assert_eq!(merge(0b1010_1010, 0b0000_1111, 0b0101_0101), 0b1010_0101);
    assert_eq!(merge(0xFF, 0x00, 0x00), 0xFF);
    assert_eq!(merge(0x00, 0xFF, 0x5A), 0x5A);
    assert_eq!(merge(0x12, 0x7C, 0x14), 0x16);
    for current in 0..=255u8 {
        for mask in [0x00u8, 0x01, 0x03, 0x7C, 0x7F, 0x83, 0xFF] {
            for value in [0x00u8, 0x01, 0x14, 0x80, 0xFF] {
                let byte = merge(current, mask, value);
                assert_eq!(byte, (current & !mask) | (value & mask));
                assert_eq!(byte & !mask, current & !mask);
                assert_eq!(byte & mask, value & mask);
            }
        }
    }
}

#[test]
fn decode_sign_extends_from_bit_23() {
    let decode = |t: [u8; 3], p: [u8; 3]| Measurement::decode(&[t[0], t[1], t[2], p[0], p[1], p[2]]);
    let sample = decode([0x00, 0x00, 0x01], [0x40, 0x00, 0x00]);
    assert_eq!((sample.raw_temperature, sample.raw_pressure), (65536, 64));
    let sample = decode([0x00, 0x00, 0xFF], [0xFF, 0xFF, 0xFF]);
    assert_eq!((sample.raw_temperature, sample.raw_pressure), (-65536, -1));
    let sample = decode([0x00, 0x00, 0x80], [0xFF, 0xFF, 0x7F]);
    assert_eq!((sample.raw_temperature, sample.raw_pressure), (-8_388_608, 8_388_607));
    let sample = decode([0x01, 0x02, 0x03], [0x00, 0x00, 0x00]);
    assert_eq!((sample.raw_temperature, sample.raw_pressure), (0x030201, 0));
}

#[test]
fn decode_inverts_encoding_over_the_range() {
    let mut value: i32 = -8_388_608;
    while value < 8_388_608 {
        let bytes = value.to_le_bytes();
        let sample = Measurement::decode(&[bytes[0], bytes[1], bytes[2], bytes[0], bytes[1], bytes[2]]);
        assert_eq!(sample.raw_temperature, value);
        assert_eq!(sample.raw_pressure, value);
        value += 4_099;
    }
}

#[test]
fn scale_constants() {
    assert_eq!(bmp5::measurement::TEMPERATURE_COUNTS_PER_CELSIUS, 65536);
    assert_eq!(bmp5::measurement::PRESSURE_COUNTS_PER_PASCAL, 64);
    let sample = Measurement::decode(&[0x00, 0x80, 0x00, 0x20, 0x00, 0x00]);
    assert_eq!(sample.raw_temperature as f32 / 65536.0, 0.5);
    assert_eq!(sample.raw_pressure as f32 / 64.0, 0.5);
}
