//! The driver: bring-up, soft reset and measurement as a register-level
//! protocol.
//!
//! [`Bmp5`] performs no I/O. An operation is begun with [`Bmp5::init`],
//! [`Bmp5::soft_reset`] or [`Bmp5::measure`], each of which returns the first
//! [`Command`] to perform. The caller performs it on its bus or timer and
//! hands the [`Reply`] to [`Bmp5::advance`], which answers with the next
//! command or with the outcome of the operation.

use crate::bus::{merge, merged, Command, Reply};
use crate::config::Config;
use crate::constants;
use crate::measurement::{decoded, Measurement};
use vstd::prelude::*;

verus! {

/// I2C address with SDO tied to GND
pub const BMP5_ADDRESS: u8 = 0x47;

/// I2C address with SDO tied to VDDIO
pub const BMP5_ADDRESS_ALT: u8 = 0x46;

/// BMP5 driver error
#[derive(Debug, Copy, Clone, PartialEq, Eq)]
pub enum Error<E> {
    /// The bus reported this error; it is passed on unchanged.
    BusError(E),
    /// The chip id register held this byte, which is neither accepted id.
    InvalidChipId(u8),
    /// The device cannot sustain the requested oversampling at the requested
    /// output data rate.
    InvalidConfig,
}

/// A register field that bring-up programs by a masked update.
#[derive(Debug, Copy, Clone, PartialEq, Eq)]
pub enum Field {
    /// Power mode standby, deep sleep disabled
    Standby,
    /// Oversampling of both channels, pressure channel enabled
    Oversampling,
    /// Output data rate
    DataRate,
    /// Data-ready interrupt source
    DataReady,
    /// Power mode normal
    Normal,
}

impl Field {
    /// The register that holds the field.
    pub open spec fn register(self) -> u8 {
        match self {
            Field::Standby => constants::BMP5_REG_ODR_CONFIG,
            Field::Oversampling => constants::BMP5_REG_OSR_CONFIG,
            Field::DataRate => constants::BMP5_REG_ODR_CONFIG,
            Field::DataReady => constants::BMP5_REG_INT_SOURCE,
            Field::Normal => constants::BMP5_REG_ODR_CONFIG,
        }
    }

    /// The bits of the register that the update may change.
    pub open spec fn mask(self) -> u8 {
        match self {
            Field::Standby => constants::BMP5_ODR_DEEPSLEEP_DIS | constants::BMP5_MODE_MASK,
            Field::Oversampling => constants::BMP5_OSR_MASK | constants::BMP5_OSR_PRESS_EN,
            Field::DataRate => constants::BMP5_ODR_MASK,
            Field::DataReady => constants::BMP5_INT_ENABLE_DRDY,
            Field::Normal => constants::BMP5_MODE_MASK,
        }
    }

    /// The value merged into the register under the mask. The data rate
    /// code is moved into bits 2 to 6, where the register holds it.
    pub open spec fn value(self, config: Config) -> u8 {
        match self {
            Field::Standby => constants::BMP5_ODR_DEEPSLEEP_DIS | constants::BMP5_MODE_STANDBY,
            Field::Oversampling => oversampling_bits(config),
            Field::DataRate => config.output_data_rate.code() << 2,
            Field::DataReady => constants::BMP5_INT_ENABLE_DRDY,
            Field::Normal => constants::BMP5_MODE_NORMAL,
        }
    }
}

/// The oversampling register value: pressure enabled, the pressure code in
/// bits 3 to 5, the temperature code in bits 0 to 2.
pub open spec fn oversampling_bits(config: Config) -> u8 {
    constants::BMP5_OSR_PRESS_EN | (config.pressure_oversampling.code() << 3)
        | config.temperature_oversampling.code()
}

/// The filter register value: the pressure code in bits 3 to 5, the
/// temperature code in bits 0 to 2.
pub open spec fn filter_bits(config: Config) -> u8 {
    (config.pressure_iir_filter.code() << 3) | config.temperature_iir_filter.code()
}

/// The time between two reads of the interrupt status while waiting for a
/// sample: a quarter of the sample period, in microseconds.
pub open spec fn poll_interval_us(config: Config) -> nat {
    config.output_data_rate.spec_period_us() / 4
}

/// Whether `chip_id` identifies a supported part.
pub open spec fn chip_id_accepted(chip_id: u8) -> bool {
    chip_id == constants::BMP5_CHIP_ID || chip_id == constants::BMP5_CHIP_ID_ALT
}

/// Whether the effective-oversampling byte reports that the programmed
/// oversampling is sustained at the programmed rate.
pub open spec fn rate_sustained(osr_eff: u8) -> bool {
    osr_eff & constants::BMP5_OSR_EFF_VALID_ODR != 0
}

/// Whether the interrupt status byte reports a fresh sample.
pub open spec fn data_ready(int_status: u8) -> bool {
    int_status & constants::BMP5_INT_STATUS_DRDY != 0
}

/// Where the driver stands in its protocol: which answer it waits for.
#[derive(Debug, Copy, Clone, PartialEq, Eq)]
pub enum Phase {
    /// No operation is under way.
    Idle,
    /// The soft-reset command is being written; `bring_up` tells whether
    /// bring-up goes on after the reset.
    ResetWrite { bring_up: bool },
    /// The device settles after the reset.
    ResetSettle { bring_up: bool },
    /// The chip id is being read.
    ChipId,
    /// The register of a field is being read for a masked update.
    UpdateRead(Field),
    /// The merged byte of a field is being written back.
    UpdateWrite(Field),
    /// The device settles in standby.
    StandbySettle,
    /// The filter register is being written.
    FilterWrite,
    /// The effective oversampling is being read.
    EffectiveRead,
    /// The interrupt status is being read.
    StatusRead,
    /// The driver waits before it reads the interrupt status again.
    PollDelay,
    /// The six data registers are being read.
    SampleRead,
}

impl Phase {
    /// Whether the driver waits for the answer to a bus transaction.
    pub open spec fn on_bus(self) -> bool {
        match self {
            Phase::Idle => false,
            Phase::ResetSettle { .. } => false,
            Phase::StandbySettle => false,
            Phase::PollDelay => false,
            _ => true,
        }
    }
}

/// What the driver answers to a reply.
#[derive(Debug, PartialEq, Eq)]
pub enum Progress<E> {
    /// The operation goes on with this command.
    Next(Command),
    /// Bring-up or soft reset has completed.
    Ready,
    /// The measurement has completed with this sample.
    Sample(Measurement),
    /// The operation has failed; nothing more is asked for.
    Failed(Error<E>),
    /// The reply answers no command that is under way; nothing changed.
    Unexpected,
}

/// The driver as a mathematical value.
pub struct State {
    /// The device's 7-bit bus address
    pub address: u8,
    /// The configuration captured at construction
    pub config: Config,
    /// The protocol position
    pub phase: Phase,
}

impl State {
    /// The command that writes `value` into `register`.
    pub open spec fn write(self, register: u8, value: u8) -> Command {
        Command::Write { address: self.address, register, value }
    }

    /// The command that reads `register`.
    pub open spec fn read(self, register: u8) -> Command {
        Command::Read { address: self.address, register }
    }

    /// This driver in another phase.
    pub open spec fn at(self, phase: Phase) -> State {
        State { address: self.address, config: self.config, phase }
    }

    /// The operation goes on: the driver moves to `phase` and asks for
    /// `command`.
    pub open spec fn ask<E>(self, phase: Phase, command: Command) -> (State, Progress<E>) {
        (self.at(phase), Progress::Next(command))
    }

    /// The operation ends with `outcome` and the driver is idle again.
    pub open spec fn end<E>(self, outcome: Progress<E>) -> (State, Progress<E>) {
        (self.at(Phase::Idle), outcome)
    }

    /// The start of a masked update of `field`: its register is read.
    pub open spec fn update<E>(self, field: Field) -> (State, Progress<E>) {
        self.ask(Phase::UpdateRead(field), self.read(field.register()))
    }

    /// The start of a soft reset, alone or as the first step of bring-up.
    pub open spec fn begin_reset(self, bring_up: bool) -> (State, Command) {
        (
            self.at(Phase::ResetWrite { bring_up }),
            self.write(constants::BMP5_REG_CMD, constants::BMP5_CMD_SOFT_RESET),
        )
    }

    /// The start of a measurement: the interrupt status is read.
    pub open spec fn begin_measure(self) -> (State, Command) {
        (self.at(Phase::StatusRead), self.read(constants::BMP5_REG_INT_STATUS))
    }

    /// The driver's answer to `reply` and its state afterwards.
    pub open spec fn step<E>(self, reply: Reply<E>) -> (State, Progress<E>) {
        match (self.phase, reply) {
            // Soft reset: write the command, then let the device settle.
            (Phase::ResetWrite { bring_up }, Reply::Written) => self.ask(
                Phase::ResetSettle { bring_up },
                Command::Delay { micros: constants::BMP5_SETTLE_US },
            ),
            (Phase::ResetSettle { bring_up }, Reply::Elapsed) => if bring_up {
                self.ask(Phase::ChipId, self.read(constants::BMP5_REG_CHIP_ID))
            } else {
                self.end(Progress::Ready)
            },
            // Chip id: only the two known ids are accepted.
            (Phase::ChipId, Reply::Byte(chip_id)) => if chip_id_accepted(chip_id) {
                self.update(Field::Standby)
            } else {
                self.end(Progress::Failed(Error::InvalidChipId(chip_id)))
            },
            // Masked update: the byte read is merged and written back.
            (Phase::UpdateRead(field), Reply::Byte(current)) => self.ask(
                Phase::UpdateWrite(field),
                self.write(
                    field.register(),
                    merged(current, field.mask(), field.value(self.config)),
                ),
            ),
            // Configuration, in the order that the device requires.
            (Phase::UpdateWrite(Field::Standby), Reply::Written) => self.ask(
                Phase::StandbySettle,
                Command::Delay { micros: constants::BMP5_SETTLE_US },
            ),
            (Phase::StandbySettle, Reply::Elapsed) => self.update(Field::Oversampling),
            (Phase::UpdateWrite(Field::Oversampling), Reply::Written) => self.ask(
                Phase::FilterWrite,
                self.write(constants::BMP5_REG_DSP_IIR, filter_bits(self.config)),
            ),
            (Phase::FilterWrite, Reply::Written) => self.update(Field::DataRate),
            (Phase::UpdateWrite(Field::DataRate), Reply::Written) => self.update(Field::DataReady),
            (Phase::UpdateWrite(Field::DataReady), Reply::Written) => self.update(Field::Normal),
            (Phase::UpdateWrite(Field::Normal), Reply::Written) => self.ask(
                Phase::EffectiveRead,
                self.read(constants::BMP5_REG_OSR_EFF),
            ),
            (Phase::EffectiveRead, Reply::Byte(osr_eff)) => if rate_sustained(osr_eff) {
                self.end(Progress::Ready)
            } else {
                self.end(Progress::Failed(Error::InvalidConfig))
            },
            // Measurement: poll until a sample is ready, then read it.
            (Phase::StatusRead, Reply::Byte(int_status)) => if data_ready(int_status) {
                self.ask(
                    Phase::SampleRead,
                    Command::ReadSample {
                        address: self.address,
                        register: constants::BMP5_REG_TEMP_DATA_XLSB,
                    },
                )
            } else {
                self.ask(
                    Phase::PollDelay,
                    Command::Delay { micros: poll_interval_us(self.config) as u32 },
                )
            },
            (Phase::PollDelay, Reply::Elapsed) => self.ask(
                Phase::StatusRead,
                self.read(constants::BMP5_REG_INT_STATUS),
            ),
            (Phase::SampleRead, Reply::Sample(block)) => self.end(
                Progress::Sample(decoded(block)),
            ),
            // A bus error ends whatever was under way.
            (phase, Reply::Failed(error)) => if phase.on_bus() {
                self.end(Progress::Failed(Error::BusError(error)))
            } else {
                (self, Progress::Unexpected)
            },
            _ => (self, Progress::Unexpected),
        }
    }

    /// The commands that the driver asks for, in order, while it is handed
    /// `replies` one after another.
    pub open spec fn asked<E>(self, replies: Seq<Reply<E>>) -> Seq<Command>
        decreases replies.len(),
    {
        if replies.len() == 0 {
            Seq::empty()
        } else {
            let (next, progress) = self.step(replies.first());
            let rest = next.asked(replies.drop_first());
            match progress {
                Progress::Next(command) => seq![command] + rest,
                _ => rest,
            }
        }
    }
}

/// BMP5 driver
pub struct Bmp5 {
    address: u8,
    config: Config,
    phase: Phase,
}

impl View for Bmp5 {
    type V = State;

    closed spec fn view(&self) -> State {
        State { address: self.address, config: self.config, phase: self.phase }
    }
}

impl Bmp5 {
    /// Creates a driver for the device at `address`. Nothing is sent to the
    /// device.
    pub fn new(address: u8, config: Config) -> (driver: Self)
        ensures
            driver@ == (State { address, config, phase: Phase::Idle }),
    {
        Self { address, config, phase: Phase::Idle }
    }

    /// The device's bus address.
    pub fn address(&self) -> (address: u8)
        ensures
            address == self@.address,
    {
        self.address
    }

    /// The configuration captured at construction.
    pub fn config(&self) -> (config: Config)
        ensures
            config == self@.config,
    {
        self.config
    }

    /// Where the driver stands in its protocol.
    pub fn phase(&self) -> (phase: Phase)
        ensures
            phase == self@.phase,
    {
        self.phase
    }

    /// Begins bring-up: soft reset, chip-id check, configuration in standby,
    /// normal mode, and a check that the device sustains the configuration.
    /// Whatever was under way is abandoned. Returns the first command.
    pub fn init(&mut self) -> (command: Command)
        ensures
            (final(self)@, command) == old(self)@.begin_reset(true),
    {
        self.phase = Phase::ResetWrite { bring_up: true };
        self.write_reg(constants::BMP5_REG_CMD, constants::BMP5_CMD_SOFT_RESET)
    }

    /// Begins a measurement: wait until a sample is ready, then read and
    /// decode it. Whatever was under way is abandoned. Returns the first
    /// command.
    pub fn measure(&mut self) -> (command: Command)
        ensures
            (final(self)@, command) == old(self)@.begin_measure(),
    {
        self.phase = Phase::StatusRead;
        self.read_reg(constants::BMP5_REG_INT_STATUS)
    }

    /// Begins a soft reset, which returns the device to its reset state.
    /// Whatever was under way is abandoned. Returns the first command.
    pub fn soft_reset(&mut self) -> (command: Command)
        ensures
            (final(self)@, command) == old(self)@.begin_reset(false),
    {
        self.phase = Phase::ResetWrite { bring_up: false };
        self.write_reg(constants::BMP5_REG_CMD, constants::BMP5_CMD_SOFT_RESET)
    }

    /// Takes the reply to the command that the driver last asked for and
    /// answers with the next command or with the outcome of the operation.
    pub fn advance<E>(&mut self, reply: Reply<E>) -> (progress: Progress<E>)
        ensures
            (final(self)@, progress) == old(self)@.step(reply),
    {
        match self.phase {
            Phase::Idle => Progress::Unexpected,
            Phase::ResetWrite { bring_up } => match reply {
                Reply::Written => {
                    self.phase = Phase::ResetSettle { bring_up };
                    Progress::Next(Command::Delay { micros: constants::BMP5_SETTLE_US })
                },
                Reply::Failed(error) => self.fail(Error::BusError(error)),
                _ => Progress::Unexpected,
            },
            Phase::ResetSettle { bring_up } => match reply {
                Reply::Elapsed => {
                    if bring_up {
                        self.phase = Phase::ChipId;
                        Progress::Next(self.read_reg(constants::BMP5_REG_CHIP_ID))
                    } else {
                        self.phase = Phase::Idle;
                        Progress::Ready
                    }
                },
                _ => Progress::Unexpected,
            },
            Phase::ChipId => match reply {
                Reply::Byte(chip_id) => match Self::verify_chip_id(chip_id) {
                    Ok(()) => Progress::Next(self.begin_update(Field::Standby)),
                    Err(error) => self.fail(error),
                },
                Reply::Failed(error) => self.fail(Error::BusError(error)),
                _ => Progress::Unexpected,
            },
            Phase::UpdateRead(_)
            | Phase::UpdateWrite(_)
            | Phase::StandbySettle
            | Phase::FilterWrite
            | Phase::EffectiveRead => self.configure(reply),
            Phase::StatusRead | Phase::PollDelay => self.wait_for_drdy(reply),
            Phase::SampleRead => match reply {
                Reply::Sample(block) => {
                    self.phase = Phase::Idle;
                    Progress::Sample(Measurement::decode(&block))
                },
                Reply::Failed(error) => self.fail(Error::BusError(error)),
                _ => Progress::Unexpected,
            },
        }
    }

    /// Ends the operation under way with `error`.
    fn fail<E>(&mut self, error: Error<E>) -> (progress: Progress<E>)
        ensures
            (final(self)@, progress) == old(self)@.end(Progress::Failed(error)),
    {
        self.phase = Phase::Idle;
        Progress::Failed(error)
    }

    /// Decides on the byte read from the chip id register: the two known
    /// ids are accepted, every other byte is rejected with that byte in the
    /// error.
    pub fn verify_chip_id<E>(chip_id: u8) -> (outcome: Result<(), Error<E>>)
        ensures
            outcome is Ok <==> chip_id == 0x50 || chip_id == 0x51,
            chip_id_accepted(chip_id) ==> outcome == Ok::<(), Error<E>>(()),
            !chip_id_accepted(chip_id) ==> outcome == Err::<(), Error<E>>(
                Error::InvalidChipId(chip_id),
            ),
    {
        if chip_id != constants::BMP5_CHIP_ID && chip_id != constants::BMP5_CHIP_ID_ALT {
            return Err(Error::InvalidChipId(chip_id));
        }
        Ok(())
    }

    /// The configuration steps of bring-up, from standby to the check of the
    /// effective oversampling.
    fn configure<E>(&mut self, reply: Reply<E>) -> (progress: Progress<E>)
        requires
            match old(self)@.phase {
                Phase::UpdateRead(_)
                | Phase::UpdateWrite(_)
                | Phase::StandbySettle
                | Phase::FilterWrite
                | Phase::EffectiveRead => true,
                _ => false,
            },
        ensures
            (final(self)@, progress) == old(self)@.step(reply),
    {
        match (self.phase, reply) {
            (Phase::UpdateRead(field), Reply::Byte(current)) => {
                self.phase = Phase::UpdateWrite(field);
                Progress::Next(self.update_reg(field, current))
            },
            (Phase::UpdateWrite(Field::Standby), Reply::Written) => {
                // The device must be in standby before its configuration is
                // written, and needs time to get there.
                self.phase = Phase::StandbySettle;
                Progress::Next(Command::Delay { micros: constants::BMP5_SETTLE_US })
            },
            (Phase::StandbySettle, Reply::Elapsed) => Progress::Next(
                self.begin_update(Field::Oversampling),
            ),
            (Phase::UpdateWrite(Field::Oversampling), Reply::Written) => {
                let iir_config: u8 = (u8::from(self.config.pressure_iir_filter) << 3) | u8::from(
                    self.config.temperature_iir_filter,
                );
                self.phase = Phase::FilterWrite;
                Progress::Next(self.write_reg(constants::BMP5_REG_DSP_IIR, iir_config))
            },
            (Phase::FilterWrite, Reply::Written) => Progress::Next(
                self.begin_update(Field::DataRate),
            ),
            (Phase::UpdateWrite(Field::DataRate), Reply::Written) => Progress::Next(
                self.begin_update(Field::DataReady),
            ),
            (Phase::UpdateWrite(Field::DataReady), Reply::Written) => Progress::Next(
                self.begin_update(Field::Normal),
            ),
            (Phase::UpdateWrite(Field::Normal), Reply::Written) => {
                self.phase = Phase::EffectiveRead;
                Progress::Next(self.read_reg(constants::BMP5_REG_OSR_EFF))
            },
            (Phase::EffectiveRead, Reply::Byte(osr_eff)) => {
                // A cleared bit means that the device runs with less
                // oversampling than asked for.
                if osr_eff & constants::BMP5_OSR_EFF_VALID_ODR == 0 {
                    self.fail(Error::InvalidConfig)
                } else {
                    self.phase = Phase::Idle;
                    Progress::Ready
                }
            },
            (Phase::StandbySettle, Reply::Failed(_)) => Progress::Unexpected,
            (_, Reply::Failed(error)) => self.fail(Error::BusError(error)),
            _ => Progress::Unexpected,
        }
    }

    /// The wait for a fresh sample: read the interrupt status, and read it
    /// again a quarter of a sample period later until it reports data ready.
    fn wait_for_drdy<E>(&mut self, reply: Reply<E>) -> (progress: Progress<E>)
        requires
            old(self)@.phase == Phase::StatusRead || old(self)@.phase == Phase::PollDelay,
        ensures
            (final(self)@, progress) == old(self)@.step(reply),
    {
        match (self.phase, reply) {
            (Phase::StatusRead, Reply::Byte(int_status)) => {
                if int_status & constants::BMP5_INT_STATUS_DRDY != 0 {
                    self.phase = Phase::SampleRead;
                    Progress::Next(
                        Command::ReadSample {
                            address: self.address,
                            register: constants::BMP5_REG_TEMP_DATA_XLSB,
                        },
                    )
                } else {
                    self.phase = Phase::PollDelay;
                    Progress::Next(
                        Command::Delay { micros: self.config.output_data_rate.period_us() / 4 },
                    )
                }
            },
            (Phase::StatusRead, Reply::Failed(error)) => self.fail(Error::BusError(error)),
            (Phase::PollDelay, Reply::Elapsed) => {
                self.phase = Phase::StatusRead;
                Progress::Next(self.read_reg(constants::BMP5_REG_INT_STATUS))
            },
            _ => Progress::Unexpected,
        }
    }

    /// The value that bring-up merges into the register of `field`, and the
    /// mask under which it does so.
    fn field_bits(&self, field: Field) -> (bits: (u8, u8))
        ensures
            bits.0 == field.mask(),
            bits.1 == field.value(self@.config),
    {
        match field {
            Field::Standby => (
                constants::BMP5_ODR_DEEPSLEEP_DIS | constants::BMP5_MODE_MASK,
                constants::BMP5_ODR_DEEPSLEEP_DIS | constants::BMP5_MODE_STANDBY,
            ),
            Field::Oversampling => (
                constants::BMP5_OSR_MASK | constants::BMP5_OSR_PRESS_EN,
                constants::BMP5_OSR_PRESS_EN | (u8::from(self.config.pressure_oversampling) << 3)
                    | u8::from(self.config.temperature_oversampling),
            ),
            Field::DataRate => (
                constants::BMP5_ODR_MASK,
                u8::from(self.config.output_data_rate) << 2,
            ),
            Field::DataReady => (
                constants::BMP5_INT_ENABLE_DRDY,
                constants::BMP5_INT_ENABLE_DRDY,
            ),
            Field::Normal => (constants::BMP5_MODE_MASK, constants::BMP5_MODE_NORMAL),
        }
    }

    /// The register that holds `field`.
    fn field_register(field: Field) -> (register: u8)
        ensures
            register == field.register(),
    {
        match field {
            Field::Standby | Field::DataRate | Field::Normal => constants::BMP5_REG_ODR_CONFIG,
            Field::Oversampling => constants::BMP5_REG_OSR_CONFIG,
            Field::DataReady => constants::BMP5_REG_INT_SOURCE,
        }
    }

    /// First half of a masked update: read the register of `field`.
    fn begin_update(&mut self, field: Field) -> (command: Command)
        ensures
            final(self)@ == old(self)@.at(Phase::UpdateRead(field)),
            command == old(self)@.read(field.register()),
    {
        self.phase = Phase::UpdateRead(field);
        self.read_reg(Self::field_register(field))
    }

    /// Second half of a masked update: write back `current` with the bits of
    /// `field` replaced. Bits outside the field's mask are written as read.
    fn update_reg(&self, field: Field, current: u8) -> (command: Command)
        ensures
            command == self@.write(
                field.register(),
                merged(current, field.mask(), field.value(self@.config)),
            ),
    {
        let (mask, value) = self.field_bits(field);
        self.write_reg(Self::field_register(field), merge(current, mask, value))
    }

    /// The command that reads the byte in `reg`.
    fn read_reg(&self, reg: u8) -> (command: Command)
        ensures
            command == self@.read(reg),
    {
        Command::Read { address: self.address, register: reg }
    }

    /// The command that writes `value` into `reg`.
    fn write_reg(&self, reg: u8, value: u8) -> (command: Command)
        ensures
            command == self@.write(reg, value),
    {
        Command::Write { address: self.address, register: reg, value }
    }
}

} // verus!
