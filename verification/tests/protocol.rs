use bmp5::bus::{Command, Reply};
use bmp5::i2c::{Bmp5, Error, Phase, Progress, BMP5_ADDRESS, BMP5_ADDRESS_ALT};
use bmp5::{Config, IIRFilter, Measurement, OutputDataRate, Oversampling};

/// What the mock bus and timer saw.
#[derive(Debug, Clone, PartialEq)]
enum Seen {
    Write(u8, Vec<u8>),
    WriteRead(u8, Vec<u8>, usize),
    DelayUs(u32),
}

#[derive(Debug, Clone, Copy, PartialEq, Eq)]
struct Fault(u16);

/// A scripted device: fixed chip id and effective oversampling, a queue of
/// interrupt status bytes, six data bytes, and configuration registers that
/// keep what is written to them.
struct Mock {
    chip_id: u8,
    osr_eff: u8,
    int_status: Vec<u8>,
    data: [u8; 6],
    registers: [u8; 256],
    seen: Vec<Seen>,
    fail_at: Option<(usize, Fault)>,
    bus_calls: usize,
}

impl Mock {
    fn new() -> Mock {
        Mock {
            chip_id: 0x50,
            osr_eff: 0x80,
            int_status: vec![0x01],
            data: [0; 6],
            registers: [0; 256],
            seen: Vec::new(),
            fail_at: None,
            bus_calls: 0,
        }
    }

    fn read(&mut self, register: u8) -> u8 {
        match register {
            0x01 => self.chip_id,
            0x38 => self.osr_eff,
            0x27 => {
                if self.int_status.len() > 1 {
                    self.int_status.remove(0)
                } else {
                    self.int_status[0]
                }
            }
            other => self.registers[other as usize],
        }
    }

    fn fails_now(&mut self) -> Option<Fault> {
        let call = self.bus_calls;
        self.bus_calls += 1;
        match self.fail_at {
            Some((at, fault)) if at == call => Some(fault),
            _ => None,
        }
    }

    fn perform(&mut self, command: Command) -> Reply<Fault> {
        match command {
            Command::Write { address, register, value } => {
                self.seen.push(Seen::Write(address, vec![register, value]));
                if let Some(fault) = self.fails_now() {
                    return Reply::Failed(fault);
                }
                self.registers[register as usize] = value;
                Reply::Written
            }
            Command::Read { address, register } => {
                self.seen.push(Seen::WriteRead(address, vec![register], 1));
                if let Some(fault) = self.fails_now() {
                    return Reply::Failed(fault);
                }
                Reply::Byte(self.read(register))
            }
            Command::ReadSample { address, register } => {
                self.seen.push(Seen::WriteRead(address, vec![register], 6));
                if let Some(fault) = self.fails_now() {
                    return Reply::Failed(fault);
                }
                Reply::Sample(self.data)
            }
            Command::Delay { micros } => {
                self.seen.push(Seen::DelayUs(micros));
                Reply::Elapsed
            }
        }
    }

    /// Performs commands until the operation ends.
    fn run(&mut self, driver: &mut Bmp5, first: Command) -> Result<Option<Measurement>, Error<Fault>> {
        let mut command = first;
        loop {
            let reply = self.perform(command);
            match driver.advance(reply) {
                Progress::Next(next) => command = next,
                Progress::Ready => return Ok(None),
                Progress::Sample(sample) => return Ok(Some(sample)),
                Progress::Failed(error) => return Err(error),
                Progress::Unexpected => panic!("the driver refused the answer to its own command"),
            }
        }
    }

    fn init(&mut self, driver: &mut Bmp5) -> Result<(), Error<Fault>> {
        let first = driver.init();
        self.run(driver, first).map(|_| ())
    }

    fn measure(&mut self, driver: &mut Bmp5) -> Result<Measurement, Error<Fault>> {
        let first = driver.measure();
        self.run(driver, first).map(|sample| sample.unwrap())
    }

    fn soft_reset(&mut self, driver: &mut Bmp5) -> Result<(), Error<Fault>> {
        let first = driver.soft_reset();
        self.run(driver, first).map(|_| ())
    }
}

fn celsius(sample: &Measurement) -> f32 {
    sample.raw_temperature as f32 / 65536.0
}

fn pascals(sample: &Measurement) -> f32 {
    sample.raw_pressure as f32 / 64.0
}

fn w(register: u8, value: u8) -> Seen {
    Seen::Write(0x47, vec![register, value])
}

fn r(register: u8) -> Seen {
    Seen::WriteRead(0x47, vec![register], 1)
}

#[test]
fn new_performs_no_io_and_is_idle() {
    let driver = Bmp5::new(BMP5_ADDRESS_ALT, Config::default());
    assert_eq!(driver.address(), 0x46);
    assert_eq!(driver.config(), Config::default());
    assert_eq!(driver.phase(), Phase::Idle);
    assert_eq!(BMP5_ADDRESS, 0x47);
}

#[test]
fn init_transcript_default_config() {
    let mut mock = Mock::new();
    let mut driver = Bmp5::new(BMP5_ADDRESS, Config::default());
    assert_eq!(mock.init(&mut driver), Ok(()));
    assert_eq!(
        mock.seen,
        vec![
            w(0x7E, 0xB6),
            Seen::DelayUs(2500),
            r(0x01),
            r(0x37),
            w(0x37, 0x80),
            Seen::DelayUs(2500),
            r(0x36),
            w(0x36, 0x40),
            w(0x31, 0x00),
            r(0x37),
            w(0x37, 0xD0),
            r(0x15),
            w(0x15, 0x01),
            r(0x37),
            w(0x37, 0xD1),
            r(0x38),
        ]
    );
    assert_eq!(driver.phase(), Phase::Idle);
}

#[test]
fn init_transcript_custom_config_over_set_registers() {
    let mut mock = Mock::new();
    mock.registers[0x37] = 0xFF;
    mock.registers[0x36] = 0xFF;
    mock.registers[0x31] = 0xFF;
    mock.registers[0x15] = 0xFE;
    let config = Config {
        temperature_oversampling: Oversampling::Oversampling2X,
        temperature_iir_filter: IIRFilter::Coeff3,
        pressure_oversampling: Oversampling::Oversampling16x,
        pressure_iir_filter: IIRFilter::Coeff127,
        output_data_rate: OutputDataRate::OutputDataRate1Hz,
    };
    let mut driver = Bmp5::new(BMP5_ADDRESS, config);
    assert_eq!(mock.init(&mut driver), Ok(()));
    assert_eq!(
        mock.seen,
        vec![
            w(0x7E, 0xB6),
            Seen::DelayUs(2500),
            r(0x01),
            r(0x37),
            // 0xFF with bits 7, 1, 0 replaced by 1, 0, 0
            w(0x37, 0xFC),
            Seen::DelayUs(2500),
            r(0x36),
            // bit 7 kept, pressure enabled, codes 4 and 1
            w(0x36, 0x80 | 0x40 | (4 << 3) | 1),
            w(0x31, (7 << 3) | 2),
            r(0x37),
            // bits 2 to 6 replaced by the code 0x1C
            w(0x37, 0x80 | 0x70),
            r(0x15),
            w(0x15, 0xFF),
            r(0x37),
            w(0x37, 0x80 | 0x70 | 0x01),
            r(0x38),
        ]
    );
}

#[test]
fn masked_update_preserves_unmasked_bits_for_every_byte() {
    for current in 0..=255u8 {
        let mut mock = Mock::new();
        mock.registers[0x36] = current;
        let mut driver = Bmp5::new(BMP5_ADDRESS, Config::default());
        assert_eq!(mock.init(&mut driver), Ok(()));
        let written = mock.registers[0x36];
        assert_eq!(written, (current & !0x7F) | (0x40 & 0x7F));
        assert_eq!(written & 0x80, current & 0x80);
    }
}

#[test]
fn chip_id_rejection_stops_all_transactions() {
    for byte in 0..=255u8 {
        if byte == 0x50 || byte == 0x51 {
            continue;
        }
        let mut mock = Mock::new();
        mock.chip_id = byte;
        let mut driver = Bmp5::new(BMP5_ADDRESS, Config::default());
        assert_eq!(mock.init(&mut driver), Err(Error::InvalidChipId(byte)));
        assert_eq!(mock.seen, vec![w(0x7E, 0xB6), Seen::DelayUs(2500), r(0x01)]);
        assert_eq!(driver.phase(), Phase::Idle);
        assert_eq!(driver.advance::<Fault>(Reply::Written), Progress::Unexpected);
        assert_eq!(driver.advance::<Fault>(Reply::Byte(0x50)), Progress::Unexpected);
        assert_eq!(driver.advance::<Fault>(Reply::Elapsed), Progress::Unexpected);
    }
}

#[test]
fn osr_eff_rejection_for_every_byte_with_bit_7_clear() {
    for byte in 0..=0x7Fu8 {
        let mut mock = Mock::new();
        mock.osr_eff = byte;
        let mut driver = Bmp5::new(BMP5_ADDRESS, Config::default());
        assert_eq!(mock.init(&mut driver), Err(Error::InvalidConfig));
        assert_eq!(mock.seen.len(), 16);
        assert_eq!(driver.phase(), Phase::Idle);
    }
    for byte in 0x80..=0xFFu8 {
        let mut mock = Mock::new();
        mock.osr_eff = byte;
        let mut driver = Bmp5::new(BMP5_ADDRESS, Config::default());
        assert_eq!(mock.init(&mut driver), Ok(()));
    }
}

#[test]
fn decode_round_trip_through_measure() {
    let mut mock = Mock::new();
    mock.data = [0x00, 0x00, 0x01, 0x40, 0x00, 0x00];
    let mut driver = Bmp5::new(BMP5_ADDRESS, Config::default());
    let sample = mock.measure(&mut driver).unwrap();
    assert_eq!(sample, Measurement { raw_temperature: 0x010000, raw_pressure: 0x000040 });
    assert_eq!(celsius(&sample), 1.0);
    assert_eq!(pascals(&sample), 1.0);

    let mut mock = Mock::new();
    mock.data = [0x00, 0x00, 0xFF, 0x00, 0x00, 0x00];
    let sample = mock.measure(&mut driver).unwrap();
    assert_eq!(sample.raw_temperature, -65536);
    assert_eq!(celsius(&sample), -1.0);
}

#[test]
fn poll_cadence_25_hz() {
    let mut mock = Mock::new();
    mock.int_status = vec![0x00, 0x00, 0x01];
    let mut driver = Bmp5::new(BMP5_ADDRESS, Config::default());
    mock.measure(&mut driver).unwrap();
    assert_eq!(
        mock.seen,
        vec![
            r(0x27),
            Seen::DelayUs(10000),
            r(0x27),
            Seen::DelayUs(10000),
            r(0x27),
            Seen::WriteRead(0x47, vec![0x1D], 6),
        ]
    );
}

#[test]
fn poll_cadence_0_125_hz() {
    let mut mock = Mock::new();
    mock.int_status = vec![0x00, 0x01];
    let config = Config {
        output_data_rate: OutputDataRate::OutputDataRate0_125Hz,
        ..Config::default()
    };
    let mut driver = Bmp5::new(BMP5_ADDRESS, config);
    mock.measure(&mut driver).unwrap();
    assert_eq!(
        mock.seen,
        vec![
            r(0x27),
            Seen::DelayUs(2_000_000),
            r(0x27),
            Seen::WriteRead(0x47, vec![0x1D], 6),
        ]
    );
}

#[test]
fn poll_cadence_240_hz() {
    let mut mock = Mock::new();
    mock.int_status = vec![0xFE, 0x01];
    let config = Config {
        output_data_rate: OutputDataRate::OutputDataRate240Hz,
        ..Config::default()
    };
    let mut driver = Bmp5::new(BMP5_ADDRESS, config);
    mock.measure(&mut driver).unwrap();
    assert_eq!(mock.seen[1], Seen::DelayUs(1041));
}

#[test]
fn happy_path() {
    let mut mock = Mock::new();
    mock.chip_id = 0x50;
    mock.osr_eff = 0x80;
    mock.int_status = vec![0x01];
    mock.data = [0x00, 0x00, 0x01, 0x00, 0x00, 0x04];
    let mut driver = Bmp5::new(BMP5_ADDRESS, Config::default());
    assert_eq!(mock.init(&mut driver), Ok(()));
    let sample = mock.measure(&mut driver).unwrap();
    assert_eq!(sample, Measurement { raw_temperature: 0x010000, raw_pressure: 0x040000 });
    assert_eq!(celsius(&sample), 1.0);
    assert_eq!(pascals(&sample), 4096.0);
}

#[test]
fn alt_chip_id() {
    let mut mock = Mock::new();
    mock.chip_id = 0x51;
    let mut driver = Bmp5::new(BMP5_ADDRESS, Config::default());
    assert_eq!(mock.init(&mut driver), Ok(()));
}

#[test]
fn bad_chip_id() {
    let mut mock = Mock::new();
    mock.chip_id = 0x00;
    let mut driver = Bmp5::new(BMP5_ADDRESS, Config::default());
    assert_eq!(mock.init(&mut driver), Err(Error::InvalidChipId(0x00)));
}

#[test]
fn degraded_osr() {
    let mut mock = Mock::new();
    mock.osr_eff = 0x00;
    let mut driver = Bmp5::new(BMP5_ADDRESS, Config::default());
    assert_eq!(mock.init(&mut driver), Err(Error::InvalidConfig));
}

#[test]
fn drdy_wait() {
    let mut mock = Mock::new();
    mock.int_status = vec![0x00, 0x00, 0x00, 0x01];
    mock.data = [0x01, 0x02, 0x03, 0x04, 0x05, 0x06];
    let mut driver = Bmp5::new(BMP5_ADDRESS, Config::default());
    let sample = mock.measure(&mut driver).unwrap();
    let delays: Vec<&Seen> = mock.seen.iter().filter(|seen| matches!(seen, Seen::DelayUs(_))).collect();
    assert_eq!(delays, vec![&Seen::DelayUs(10000), &Seen::DelayUs(10000), &Seen::DelayUs(10000)]);
    assert_eq!(mock.seen.len(), 8);
    assert_eq!(mock.seen[7], Seen::WriteRead(0x47, vec![0x1D], 6));
    assert_eq!(sample, Measurement { raw_temperature: 0x030201, raw_pressure: 0x060504 });
}

#[test]
fn bus_fault_at_every_bus_call_of_init() {
    // Bring-up makes fourteen bus calls and two delays.
    for at in 0..14usize {
        let mut mock = Mock::new();
        mock.fail_at = Some((at, Fault(at as u16 + 100)));
        let mut driver = Bmp5::new(BMP5_ADDRESS, Config::default());
        assert_eq!(mock.init(&mut driver), Err(Error::BusError(Fault(at as u16 + 100))));
        assert_eq!(mock.bus_calls, at + 1);
        assert_eq!(driver.phase(), Phase::Idle);
        let seen = mock.seen.len();
        assert_eq!(driver.advance::<Fault>(Reply::Written), Progress::Unexpected);
        assert_eq!(mock.seen.len(), seen);
    }
    let mut mock = Mock::new();
    mock.fail_at = Some((14, Fault(0)));
    let mut driver = Bmp5::new(BMP5_ADDRESS, Config::default());
    assert_eq!(mock.init(&mut driver), Ok(()));
}

#[test]
fn bus_fault_during_measure_and_reset() {
    let mut mock = Mock::new();
    mock.fail_at = Some((0, Fault(7)));
    let mut driver = Bmp5::new(BMP5_ADDRESS, Config::default());
    assert_eq!(mock.measure(&mut driver), Err(Error::BusError(Fault(7))));
    assert_eq!(mock.seen, vec![r(0x27)]);

    let mut mock = Mock::new();
    mock.int_status = vec![0x00, 0x01];
    mock.fail_at = Some((2, Fault(8)));
    assert_eq!(mock.measure(&mut driver), Err(Error::BusError(Fault(8))));
    assert_eq!(mock.seen.len(), 4);

    let mut mock = Mock::new();
    mock.fail_at = Some((0, Fault(9)));
    assert_eq!(mock.soft_reset(&mut driver), Err(Error::BusError(Fault(9))));
    assert_eq!(mock.seen, vec![w(0x7E, 0xB6)]);
}

#[test]
fn soft_reset_writes_command_then_settles() {
    let mut mock = Mock::new();
    let mut driver = Bmp5::new(BMP5_ADDRESS_ALT, Config::default());
    assert_eq!(mock.soft_reset(&mut driver), Ok(()));
    assert_eq!(mock.seen, vec![Seen::Write(0x46, vec![0x7E, 0xB6]), Seen::DelayUs(2500)]);
    assert_eq!(driver.phase(), Phase::Idle);
}

#[test]
fn unexpected_reply_changes_nothing() {
    let mut driver = Bmp5::new(BMP5_ADDRESS, Config::default());
    assert_eq!(driver.init(), Command::Write { address: 0x47, register: 0x7E, value: 0xB6 });
    assert_eq!(driver.phase(), Phase::ResetWrite { bring_up: true });
    assert_eq!(driver.advance::<Fault>(Reply::Byte(0x50)), Progress::Unexpected);
    assert_eq!(driver.advance::<Fault>(Reply::Elapsed), Progress::Unexpected);
    assert_eq!(driver.advance::<Fault>(Reply::Sample([0; 6])), Progress::Unexpected);
    assert_eq!(driver.phase(), Phase::ResetWrite { bring_up: true });
    assert_eq!(
        driver.advance::<Fault>(Reply::Written),
        Progress::Next(Command::Delay { micros: 2500 })
    );
    // A delay cannot fail on the bus.
    assert_eq!(driver.advance(Reply::Failed(Fault(1))), Progress::Unexpected);
    assert_eq!(driver.phase(), Phase::ResetSettle { bring_up: true });
}

#[test]
fn a_new_operation_abandons_the_one_under_way() {
    let mut driver = Bmp5::new(BMP5_ADDRESS, Config::default());
    driver.init();
    assert_eq!(driver.advance::<Fault>(Reply::Written), Progress::Next(Command::Delay { micros: 2500 }));
    assert_eq!(driver.measure(), Command::Read { address: 0x47, register: 0x27 });
    assert_eq!(driver.phase(), Phase::StatusRead);
    assert_eq!(driver.soft_reset(), Command::Write { address: 0x47, register: 0x7E, value: 0xB6 });
    assert_eq!(driver.phase(), Phase::ResetWrite { bring_up: false });
}

#[test]
fn init_leaves_device_configured() {
    let mut mock = Mock::new();
    mock.registers[0x37] = 0x03;
    mock.registers[0x15] = 0xA0;
    let config = Config {
        temperature_oversampling: Oversampling::Oversampling128x,
        temperature_iir_filter: IIRFilter::Coeff1,
        pressure_oversampling: Oversampling::Oversampling64x,
        pressure_iir_filter: IIRFilter::Coeff63,
        output_data_rate: OutputDataRate::OutputDataRate10Hz,
    };
    let mut driver = Bmp5::new(BMP5_ADDRESS, config);
    assert_eq!(mock.init(&mut driver), Ok(()));
    // deep sleep disabled, code 0x17 in bits 2 to 6, normal mode
    assert_eq!(mock.registers[0x37], 0x80 | (0x17 << 2) | 0x01);
    assert_eq!(mock.registers[0x37], 0xDD);
    assert_eq!(mock.registers[0x36], 0x40 | (6 << 3) | 7);
    assert_eq!(mock.registers[0x31], (6 << 3) | 1);
    assert_eq!(mock.registers[0x15], 0xA1);
}

#[test]
fn every_rate_is_written_into_bits_2_to_6() {
    let rates = [
        (OutputDataRate::OutputDataRate0_125Hz, 0x1Fu8),
        (OutputDataRate::OutputDataRate0_250Hz, 0x1E),
        (OutputDataRate::OutputDataRate0_5Hz, 0x1D),
        (OutputDataRate::OutputDataRate1Hz, 0x1C),
        (OutputDataRate::OutputDataRate2Hz, 0x1B),
        (OutputDataRate::OutputDataRate3Hz, 0x1A),
        (OutputDataRate::OutputDataRate4Hz, 0x19),
        (OutputDataRate::OutputDataRate5Hz, 0x18),
        (OutputDataRate::OutputDataRate10Hz, 0x17),
        (OutputDataRate::OutputDataRate15Hz, 0x16),
        (OutputDataRate::OutputDataRate20Hz, 0x15),
        (OutputDataRate::OutputDataRate25Hz, 0x14),
        (OutputDataRate::OutputDataRate30Hz, 0x13),
        (OutputDataRate::OutputDataRate35Hz, 0x12),
        (OutputDataRate::OutputDataRate40Hz, 0x11),
        (OutputDataRate::OutputDataRate45Hz, 0x10),
        (OutputDataRate::OutputDataRate50Hz, 0x0F),
        (OutputDataRate::OutputDataRate60Hz, 0x0E),
        (OutputDataRate::OutputDataRate70Hz, 0x0D),
        (OutputDataRate::OutputDataRate80Hz, 0x0C),
        (OutputDataRate::OutputDataRate89_6Hz, 0x0B),
        (OutputDataRate::OutputDataRate100_2Hz, 0x0A),
        (OutputDataRate::OutputDataRate110_1Hz, 0x09),
        (OutputDataRate::OutputDataRate120Hz, 0x08),
        (OutputDataRate::OutputDataRate129_8Hz, 0x07),
        (OutputDataRate::OutputDataRate140Hz, 0x06),
        (OutputDataRate::OutputDataRate149_3Hz, 0x05),
        (OutputDataRate::OutputDataRate160Hz, 0x04),
        (OutputDataRate::OutputDataRate179_2Hz, 0x03),
        (OutputDataRate::OutputDataRate199_1Hz, 0x02),
        (OutputDataRate::OutputDataRate218_5Hz, 0x01),
        (OutputDataRate::OutputDataRate240Hz, 0x00),
    ];
    let mut left: Vec<u8> = Vec::new();
    for (rate, code) in rates {
        for before in [0x00u8, 0x80, 0x7F, 0xFF] {
            let mut mock = Mock::new();
            mock.registers[0x37] = before;
            let config = Config { output_data_rate: rate, ..Config::default() };
            let mut driver = Bmp5::new(BMP5_ADDRESS, config);
            assert_eq!(mock.init(&mut driver), Ok(()));
            // The rate write is the tenth transaction after the reset command.
            let standby = (before & !0x83) | 0x80;
            assert_eq!(mock.seen[10], w(0x37, (standby & 0x83) | (code << 2)));
            let byte = mock.registers[0x37];
            assert_eq!((byte >> 2) & 0x1F, code);
            assert_eq!(byte, 0x80 | (code << 2) | 0x01);
        }
        let byte = 0x80 | (code << 2) | 0x01;
        assert!(!left.contains(&byte));
        left.push(byte);
    }
    assert_eq!(left.len(), 32);
}

#[test]
fn rate_write_of_25_hz_over_standby() {
    let mut driver = Bmp5::new(BMP5_ADDRESS, Config::default());
    driver.init();
    let replies: [Reply<Fault>; 9] = [
        Reply::Written,
        Reply::Elapsed,
        Reply::Byte(0x50),
        Reply::Byte(0x00),
        Reply::Written,
        Reply::Elapsed,
        Reply::Byte(0x00),
        Reply::Written,
        Reply::Written,
    ];
    let mut last = Progress::Unexpected;
    for reply in replies {
        last = driver.advance(reply);
    }
    assert_eq!(last, Progress::Next(Command::Read { address: 0x47, register: 0x37 }));
    assert_eq!(
        driver.advance::<Fault>(Reply::Byte(0x80)),
        Progress::Next(Command::Write { address: 0x47, register: 0x37, value: 0xD0 })
    );
}

#[test]
fn verify_chip_id_accepts_exactly_the_two_ids() {
    for byte in 0..=255u8 {
        let outcome = Bmp5::verify_chip_id::<Fault>(byte);
        if byte == 0x50 || byte == 0x51 {
            assert_eq!(outcome, Ok(()));
        } else {
            assert_eq!(outcome, Err(Error::InvalidChipId(byte)));
        }
    }
}

#[test]
fn chip_id_check_is_one_read_and_decides_alone() {
    for byte in 0..=255u8 {
        let mut driver = Bmp5::new(BMP5_ADDRESS, Config::default());
        driver.init();
        assert_eq!(
            driver.advance::<Fault>(Reply::Written),
            Progress::Next(Command::Delay { micros: 2500 })
        );
        assert_eq!(
            driver.advance::<Fault>(Reply::Elapsed),
            Progress::Next(Command::Read { address: 0x47, register: 0x01 })
        );
        let outcome = driver.advance::<Fault>(Reply::Byte(byte));
        if byte == 0x50 || byte == 0x51 {
            assert_eq!(outcome, Progress::Next(Command::Read { address: 0x47, register: 0x37 }));
        } else {
            assert_eq!(outcome, Progress::Failed(Error::InvalidChipId(byte)));
            assert_eq!(driver.phase(), Phase::Idle);
        }
    }
}
