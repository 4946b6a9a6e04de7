//! What holds of the protocol as a whole: the order of the bring-up
//! transactions, the treatment of rejected devices and bus errors, the
//! polling cadence, and the register contents that bring-up leaves behind.

use crate::bus::{merged, Command, Reply};
use crate::config::Config;
use crate::constants;
use crate::i2c::{
    chip_id_accepted, data_ready, filter_bits, oversampling_bits, poll_interval_us,
    rate_sustained, Error, Field, Phase, Progress, State,
};
use vstd::prelude::*;

verus! {

/// Bring-up asks for the same sixteen transactions in the same order for
/// every configuration and whatever the registers held: soft reset and
/// settling time; chip id; standby with deep sleep disabled, and settling
/// time; oversampling; filter; output data rate; data-ready interrupt
/// source; normal mode; effective oversampling. Each masked update writes
/// back the byte it read with only the bits under its mask replaced. The
/// outcome is decided by the last byte alone.
pub proof fn lemma_bring_up_transcript<E>(
    address: u8,
    config: Config,
    chip_id: u8,
    odr_config: u8,
    osr_config: u8,
    odr_standby: u8,
    int_source: u8,
    odr_rate: u8,
    osr_eff: u8,
)
    requires
        chip_id_accepted(chip_id),
    ensures
        ({
            let idle = State { address, config, phase: Phase::Idle };
            let (at0, first) = idle.begin_reset(true);
            let (at1, out1) = at0.step::<E>(Reply::Written);
            let (at2, out2) = at1.step::<E>(Reply::Elapsed);
            let (at3, out3) = at2.step::<E>(Reply::Byte(chip_id));
            let (at4, out4) = at3.step::<E>(Reply::Byte(odr_config));
            let (at5, out5) = at4.step::<E>(Reply::Written);
            let (at6, out6) = at5.step::<E>(Reply::Elapsed);
            let (at7, out7) = at6.step::<E>(Reply::Byte(osr_config));
            let (at8, out8) = at7.step::<E>(Reply::Written);
            let (at9, out9) = at8.step::<E>(Reply::Written);
            let (at10, out10) = at9.step::<E>(Reply::Byte(odr_standby));
            let (at11, out11) = at10.step::<E>(Reply::Written);
            let (at12, out12) = at11.step::<E>(Reply::Byte(int_source));
            let (at13, out13) = at12.step::<E>(Reply::Written);
            let (at14, out14) = at13.step::<E>(Reply::Byte(odr_rate));
            let (at15, out15) = at14.step::<E>(Reply::Written);
            let (at16, out16) = at15.step::<E>(Reply::Byte(osr_eff));
            &&& first == idle.write(constants::BMP5_REG_CMD, constants::BMP5_CMD_SOFT_RESET)
            &&& out1 == Progress::<E>::Next(Command::Delay { micros: constants::BMP5_SETTLE_US })
            &&& out2 == Progress::<E>::Next(idle.read(constants::BMP5_REG_CHIP_ID))
            &&& out3 == Progress::<E>::Next(idle.read(constants::BMP5_REG_ODR_CONFIG))
            &&& out4 == Progress::<E>::Next(
                idle.write(
                    constants::BMP5_REG_ODR_CONFIG,
                    merged(
                        odr_config,
                        constants::BMP5_ODR_DEEPSLEEP_DIS | constants::BMP5_MODE_MASK,
                        constants::BMP5_ODR_DEEPSLEEP_DIS | constants::BMP5_MODE_STANDBY,
                    ),
                ),
            )
            &&& out5 == Progress::<E>::Next(Command::Delay { micros: constants::BMP5_SETTLE_US })
            &&& out6 == Progress::<E>::Next(idle.read(constants::BMP5_REG_OSR_CONFIG))
            &&& out7 == Progress::<E>::Next(
                idle.write(
                    constants::BMP5_REG_OSR_CONFIG,
                    merged(
                        osr_config,
                        constants::BMP5_OSR_MASK | constants::BMP5_OSR_PRESS_EN,
                        oversampling_bits(config),
                    ),
                ),
            )
            &&& out8 == Progress::<E>::Next(
                idle.write(constants::BMP5_REG_DSP_IIR, filter_bits(config)),
            )
            &&& out9 == Progress::<E>::Next(idle.read(constants::BMP5_REG_ODR_CONFIG))
            &&& out10 == Progress::<E>::Next(
                idle.write(
                    constants::BMP5_REG_ODR_CONFIG,
                    merged(
                        odr_standby,
                        constants::BMP5_ODR_MASK,
                        config.output_data_rate.code() << 2,
                    ),
                ),
            )
            &&& out11 == Progress::<E>::Next(idle.read(constants::BMP5_REG_INT_SOURCE))
            &&& out12 == Progress::<E>::Next(
                idle.write(
                    constants::BMP5_REG_INT_SOURCE,
                    merged(
                        int_source,
                        constants::BMP5_INT_ENABLE_DRDY,
                        constants::BMP5_INT_ENABLE_DRDY,
                    ),
                ),
            )
            &&& out13 == Progress::<E>::Next(idle.read(constants::BMP5_REG_ODR_CONFIG))
            &&& out14 == Progress::<E>::Next(
                idle.write(
                    constants::BMP5_REG_ODR_CONFIG,
                    merged(odr_rate, constants::BMP5_MODE_MASK, constants::BMP5_MODE_NORMAL),
                ),
            )
            &&& out15 == Progress::<E>::Next(idle.read(constants::BMP5_REG_OSR_EFF))
            &&& rate_sustained(osr_eff) ==> out16 == Progress::<E>::Ready
            &&& !rate_sustained(osr_eff) ==> out16 == Progress::<E>::Failed(Error::InvalidConfig)
            &&& at16 == idle
        }),
{
}

/// The replies of a bring-up that meets no bus error, given the bytes that
/// the device returns for its seven reads.
pub open spec fn bring_up_replies<E>(
    chip_id: u8,
    odr_config: u8,
    osr_config: u8,
    odr_standby: u8,
    int_source: u8,
    odr_rate: u8,
    osr_eff: u8,
) -> Seq<Reply<E>> {
    seq![
        Reply::Written,
        Reply::Elapsed,
        Reply::Byte(chip_id),
        Reply::Byte(odr_config),
        Reply::Written,
        Reply::Elapsed,
        Reply::Byte(osr_config),
        Reply::Written,
        Reply::Written,
        Reply::Byte(odr_standby),
        Reply::Written,
        Reply::Byte(int_source),
        Reply::Written,
        Reply::Byte(odr_rate),
        Reply::Written,
        Reply::Byte(osr_eff),
    ]
}

/// The transactions of bring-up that follow the reset command, in order,
/// given the bytes that the device returns for its reads.
pub open spec fn bring_up_commands(
    state: State,
    odr_config: u8,
    osr_config: u8,
    odr_standby: u8,
    int_source: u8,
    odr_rate: u8,
) -> Seq<Command> {
    seq![
        Command::Delay { micros: constants::BMP5_SETTLE_US },
        state.read(constants::BMP5_REG_CHIP_ID),
        state.read(constants::BMP5_REG_ODR_CONFIG),
        state.write(
            constants::BMP5_REG_ODR_CONFIG,
            merged(odr_config, Field::Standby.mask(), Field::Standby.value(state.config)),
        ),
        Command::Delay { micros: constants::BMP5_SETTLE_US },
        state.read(constants::BMP5_REG_OSR_CONFIG),
        state.write(
            constants::BMP5_REG_OSR_CONFIG,
            merged(osr_config, Field::Oversampling.mask(), Field::Oversampling.value(state.config)),
        ),
        state.write(constants::BMP5_REG_DSP_IIR, filter_bits(state.config)),
        state.read(constants::BMP5_REG_ODR_CONFIG),
        state.write(
            constants::BMP5_REG_ODR_CONFIG,
            merged(odr_standby, Field::DataRate.mask(), Field::DataRate.value(state.config)),
        ),
        state.read(constants::BMP5_REG_INT_SOURCE),
        state.write(
            constants::BMP5_REG_INT_SOURCE,
            merged(int_source, Field::DataReady.mask(), Field::DataReady.value(state.config)),
        ),
        state.read(constants::BMP5_REG_ODR_CONFIG),
        state.write(
            constants::BMP5_REG_ODR_CONFIG,
            merged(odr_rate, Field::Normal.mask(), Field::Normal.value(state.config)),
        ),
        state.read(constants::BMP5_REG_OSR_EFF),
    ]
}

/// The bring-up transcript as one sequence: handed the replies of a
/// bring-up without bus error, the driver asks for exactly the fifteen
/// transactions that follow the reset command, in their order, and for
/// nothing after the last.
pub proof fn lemma_bring_up_commands<E>(
    state: State,
    chip_id: u8,
    odr_config: u8,
    osr_config: u8,
    odr_standby: u8,
    int_source: u8,
    odr_rate: u8,
    osr_eff: u8,
)
    requires
        chip_id_accepted(chip_id),
    ensures
        state.begin_reset(true).0.asked(
            bring_up_replies::<E>(
                chip_id,
                odr_config,
                osr_config,
                odr_standby,
                int_source,
                odr_rate,
                osr_eff,
            ),
        ) == bring_up_commands(state, odr_config, osr_config, odr_standby, int_source, odr_rate),
{
    let replies = bring_up_replies::<E>(
        chip_id,
        odr_config,
        osr_config,
        odr_standby,
        int_source,
        odr_rate,
        osr_eff,
    );
    let at0 = state.begin_reset(true).0;
    let at1 = at0.step::<E>(replies[0]).0;
    let at2 = at1.step::<E>(replies[1]).0;
    let at3 = at2.step::<E>(replies[2]).0;
    let at4 = at3.step::<E>(replies[3]).0;
    let at5 = at4.step::<E>(replies[4]).0;
    let at6 = at5.step::<E>(replies[5]).0;
    let at7 = at6.step::<E>(replies[6]).0;
    let at8 = at7.step::<E>(replies[7]).0;
    let at9 = at8.step::<E>(replies[8]).0;
    let at10 = at9.step::<E>(replies[9]).0;
    let at11 = at10.step::<E>(replies[10]).0;
    let at12 = at11.step::<E>(replies[11]).0;
    let at13 = at12.step::<E>(replies[12]).0;
    let at14 = at13.step::<E>(replies[13]).0;
    let at15 = at14.step::<E>(replies[14]).0;
    let at16 = at15.step::<E>(replies[15]).0;
    assert(at16.asked(replies.subrange(16, 16)) == Seq::<Command>::empty());
    assert(replies.subrange(15, 16) == seq![replies[15]] + replies.subrange(16, 16));
    lemma_asked_first(at15, replies[15], replies.subrange(16, 16));
    assert(replies.subrange(14, 16) == seq![replies[14]] + replies.subrange(15, 16));
    lemma_asked_first(at14, replies[14], replies.subrange(15, 16));
    assert(replies.subrange(13, 16) == seq![replies[13]] + replies.subrange(14, 16));
    lemma_asked_first(at13, replies[13], replies.subrange(14, 16));
    assert(replies.subrange(12, 16) == seq![replies[12]] + replies.subrange(13, 16));
    lemma_asked_first(at12, replies[12], replies.subrange(13, 16));
    assert(replies.subrange(11, 16) == seq![replies[11]] + replies.subrange(12, 16));
    lemma_asked_first(at11, replies[11], replies.subrange(12, 16));
    assert(replies.subrange(10, 16) == seq![replies[10]] + replies.subrange(11, 16));
    lemma_asked_first(at10, replies[10], replies.subrange(11, 16));
    assert(replies.subrange(9, 16) == seq![replies[9]] + replies.subrange(10, 16));
    lemma_asked_first(at9, replies[9], replies.subrange(10, 16));
    assert(replies.subrange(8, 16) == seq![replies[8]] + replies.subrange(9, 16));
    lemma_asked_first(at8, replies[8], replies.subrange(9, 16));
    assert(replies.subrange(7, 16) == seq![replies[7]] + replies.subrange(8, 16));
    lemma_asked_first(at7, replies[7], replies.subrange(8, 16));
    assert(replies.subrange(6, 16) == seq![replies[6]] + replies.subrange(7, 16));
    lemma_asked_first(at6, replies[6], replies.subrange(7, 16));
    assert(replies.subrange(5, 16) == seq![replies[5]] + replies.subrange(6, 16));
    lemma_asked_first(at5, replies[5], replies.subrange(6, 16));
    assert(replies.subrange(4, 16) == seq![replies[4]] + replies.subrange(5, 16));
    lemma_asked_first(at4, replies[4], replies.subrange(5, 16));
    assert(replies.subrange(3, 16) == seq![replies[3]] + replies.subrange(4, 16));
    lemma_asked_first(at3, replies[3], replies.subrange(4, 16));
    assert(replies.subrange(2, 16) == seq![replies[2]] + replies.subrange(3, 16));
    lemma_asked_first(at2, replies[2], replies.subrange(3, 16));
    assert(replies.subrange(1, 16) == seq![replies[1]] + replies.subrange(2, 16));
    lemma_asked_first(at1, replies[1], replies.subrange(2, 16));
    assert(replies.subrange(0, 16) == seq![replies[0]] + replies.subrange(1, 16));
    lemma_asked_first(at0, replies[0], replies.subrange(1, 16));
    assert(replies.subrange(0, 16) == replies);
}

/// A masked update of any field writes, into the register it read, the byte
/// it read with the bits under the field's mask taken from the field's
/// value; every other bit is written back as it was read.
pub proof fn lemma_update_preserves_unmasked_bits<E>(state: State, field: Field, current: u8)
    requires
        state.phase == Phase::UpdateRead(field),
    ensures
        ({
            let written = merged(current, field.mask(), field.value(state.config));
            &&& state.step::<E>(Reply::Byte(current)) == (
                state.at(Phase::UpdateWrite(field)),
                Progress::<E>::Next(state.write(field.register(), written)),
            )
            &&& written & !field.mask() == current & !field.mask()
            &&& written & field.mask() == field.value(state.config) & field.mask()
        }),
{
    crate::bus::lemma_merged_bits(current, field.mask(), field.value(state.config));
}

/// An idle driver asks for nothing: whatever it is handed, it answers
/// `Unexpected` and stays idle.
pub proof fn lemma_idle_asks_nothing<E>(state: State, reply: Reply<E>)
    requires
        state.phase == Phase::Idle,
    ensures
        state.step(reply) == (state, Progress::<E>::Unexpected),
{
}

/// An idle driver stays silent: however many replies it is handed, it asks
/// for no transaction. So once an operation has failed, or has ended in any
/// other way, nothing more happens on the bus until the caller begins a new
/// operation.
pub proof fn lemma_idle_stays_silent<E>(state: State, replies: Seq<Reply<E>>)
    requires
        state.phase == Phase::Idle,
    ensures
        state.asked(replies) == Seq::<Command>::empty(),
    decreases replies.len(),
{
    if replies.len() > 0 {
        lemma_idle_asks_nothing(state, replies.first());
        lemma_idle_stays_silent(state, replies.drop_first());
    }
}

/// The chip-id check is one read of the chip id register, asked for once
/// the reset has settled, and its answer alone decides: on 0x50 or 0x51
/// bring-up goes on with the read that begins the standby update, on every
/// other byte it ends with `InvalidChipId` of that byte. Between the reset
/// and that decision nothing is written and no delay is asked for.
pub proof fn lemma_chip_id_decides<E>(state: State, chip_id: u8)
    ensures
        ({
            let (resetting, reset) = state.begin_reset(true);
            let (settling, settle) = resetting.step::<E>(Reply::Written);
            let (identifying, identify) = settling.step::<E>(Reply::Elapsed);
            let (next, outcome) = identifying.step::<E>(Reply::Byte(chip_id));
            &&& identify == Progress::<E>::Next(state.read(constants::BMP5_REG_CHIP_ID))
            &&& identifying.phase == Phase::ChipId
            &&& chip_id == 0x50 || chip_id == 0x51 <==> outcome == Progress::<E>::Next(
                state.read(constants::BMP5_REG_ODR_CONFIG),
            )
            &&& !(chip_id == 0x50 || chip_id == 0x51) <==> outcome == Progress::<E>::Failed(
                Error::InvalidChipId(chip_id),
            )
            &&& outcome is Failed ==> next.phase == Phase::Idle
            &&& outcome is Next ==> next.phase == Phase::UpdateRead(Field::Standby)
        }),
{
}

/// A chip id other than the two accepted ones ends bring-up with
/// `InvalidChipId` of that byte and leaves the driver idle: no register is
/// written and nothing else is asked for, whatever is handed to the driver
/// afterwards.
pub proof fn lemma_chip_id_rejected<E>(state: State, chip_id: u8, later: Seq<Reply<E>>)
    requires
        state.phase == Phase::ChipId,
        chip_id != 0x50,
        chip_id != 0x51,
    ensures
        state.step::<E>(Reply::Byte(chip_id)) == (
            state.at(Phase::Idle),
            Progress::<E>::Failed(Error::InvalidChipId(chip_id)),
        ),
        state.asked(seq![Reply::<E>::Byte(chip_id)] + later) == Seq::<Command>::empty(),
{
    let replies = seq![Reply::<E>::Byte(chip_id)] + later;
    assert(replies.first() == Reply::<E>::Byte(chip_id));
    assert(replies.drop_first() == later);
    lemma_idle_stays_silent(state.at(Phase::Idle), later);
}

/// An effective-oversampling byte with bit 7 clear ends bring-up with
/// `InvalidConfig` and leaves the driver idle; nothing else is asked for.
pub proof fn lemma_degraded_oversampling_rejected<E>(
    state: State,
    osr_eff: u8,
    later: Seq<Reply<E>>,
)
    requires
        state.phase == Phase::EffectiveRead,
        osr_eff & 0x80 == 0,
    ensures
        state.step::<E>(Reply::Byte(osr_eff)) == (
            state.at(Phase::Idle),
            Progress::<E>::Failed(Error::InvalidConfig),
        ),
        state.asked(seq![Reply::<E>::Byte(osr_eff)] + later) == Seq::<Command>::empty(),
{
    let replies = seq![Reply::<E>::Byte(osr_eff)] + later;
    assert(replies.first() == Reply::<E>::Byte(osr_eff));
    assert(replies.drop_first() == later);
    lemma_idle_stays_silent(state.at(Phase::Idle), later);
}

/// A bus error in answer to any transaction is passed on unchanged as
/// `BusError` and leaves the driver idle; no further transaction is asked
/// for, whatever is handed to the driver afterwards.
pub proof fn lemma_bus_error_surfaces<E>(state: State, error: E, later: Seq<Reply<E>>)
    requires
        state.phase.on_bus(),
    ensures
        state.step(Reply::Failed(error)) == (
            state.at(Phase::Idle),
            Progress::Failed(Error::BusError(error)),
        ),
        state.asked(seq![Reply::Failed(error)] + later) == Seq::<Command>::empty(),
{
    let replies = seq![Reply::Failed(error)] + later;
    assert(replies.first() == Reply::Failed(error));
    assert(replies.drop_first() == later);
    lemma_idle_stays_silent(state.at(Phase::Idle), later);
}

/// Every outcome other than a next command leaves the driver idle, a next
/// command leaves it waiting, and an unexpected reply changes nothing. The
/// address and the configuration never change.
pub proof fn lemma_step_outcomes<E>(state: State, reply: Reply<E>)
    ensures
        ({
            let (next, progress) = state.step(reply);
            &&& next.address == state.address
            &&& next.config == state.config
            &&& progress is Next ==> next.phase != Phase::Idle
            &&& progress is Ready || progress is Sample || progress is Failed ==> next.phase
                == Phase::Idle
            &&& progress is Unexpected ==> next == state
        }),
{
}

/// While no sample is ready, successive reads of the interrupt status are
/// separated by exactly one delay of a quarter of the sample period.
pub proof fn lemma_poll_cadence<E>(state: State, int_status: u8)
    requires
        state.phase == Phase::StatusRead,
        !data_ready(int_status),
    ensures
        ({
            let (waiting, delay) = state.step::<E>(Reply::Byte(int_status));
            let (polling, read) = waiting.step::<E>(Reply::Elapsed);
            &&& delay == Progress::<E>::Next(
                Command::Delay { micros: poll_interval_us(state.config) as u32 },
            )
            &&& poll_interval_us(state.config) == state.config.output_data_rate.spec_period_us()
                / 4
            &&& 1 <= poll_interval_us(state.config) <= 2_000_000
            &&& read == Progress::<E>::Next(state.read(constants::BMP5_REG_INT_STATUS))
            &&& polling == state
        }),
{
}

/// Once the interrupt status reports a sample, the six data registers are
/// read in one transaction that starts at the lowest temperature byte, and
/// the measurement ends with the decoded sample.
pub proof fn lemma_sample_follows_data_ready<E>(state: State, int_status: u8, block: [u8; 6])
    requires
        state.phase == Phase::StatusRead,
        data_ready(int_status),
    ensures
        ({
            let (reading, burst) = state.step::<E>(Reply::Byte(int_status));
            &&& burst == Progress::<E>::Next(
                Command::ReadSample {
                    address: state.address,
                    register: constants::BMP5_REG_TEMP_DATA_XLSB,
                },
            )
            &&& reading.step::<E>(Reply::Sample(block)) == (
                state.at(Phase::Idle),
                Progress::<E>::Sample(crate::measurement::decoded(block)),
            )
        }),
{
}

/// The driver accepts every answer to a command it asked for: whichever
/// reply the command can have, the driver does not call it unexpected. It
/// waits for a bus transaction exactly when the command is one.
pub proof fn lemma_answers_are_accepted<E>(state: State, reply: Reply<E>, answer: Reply<E>)
    ensures
        ({
            let (next, progress) = state.step(reply);
            progress matches Progress::Next(command) ==> {
                &&& next.phase.on_bus() == command.on_bus()
                &&& command.answered_by(answer) ==> !(next.step(answer).1 is Unexpected)
            }
        }),
{
}

/// The same holds of the first command of each operation.
pub proof fn lemma_first_answers_are_accepted<E>(state: State, answer: Reply<E>)
    ensures
        ({
            let (resetting, reset) = state.begin_reset(false);
            let (bringing_up, bring_up) = state.begin_reset(true);
            let (measuring, poll) = state.begin_measure();
            &&& reset.answered_by(answer) ==> !(resetting.step(answer).1 is Unexpected)
            &&& bring_up.answered_by(answer) ==> !(bringing_up.step(answer).1 is Unexpected)
            &&& poll.answered_by(answer) ==> !(measuring.step(answer).1 is Unexpected)
        }),
{
}

/// A soft reset on its own is the reset command followed by the settling
/// time; it ends ready and idle without reading anything.
pub proof fn lemma_soft_reset_transcript<E>(state: State)
    ensures
        ({
            let (at0, first) = state.begin_reset(false);
            let (at1, out1) = at0.step::<E>(Reply::Written);
            let (at2, out2) = at1.step::<E>(Reply::Elapsed);
            &&& first == state.write(constants::BMP5_REG_CMD, constants::BMP5_CMD_SOFT_RESET)
            &&& out1 == Progress::<E>::Next(Command::Delay { micros: constants::BMP5_SETTLE_US })
            &&& out2 == Progress::<E>::Ready
            &&& at2 == state.at(Phase::Idle)
        }),
{
}

/// The register values of a configuration as plain numbers: the
/// oversampling value is 64 plus eight times the pressure code plus the
/// temperature code, the filter value eight times the pressure code plus
/// the temperature code, the rate value four times the rate code. Each lies
/// within the bits it is written to.
pub proof fn lemma_register_values(config: Config)
    ensures
        oversampling_bits(config) == 64 + 8 * config.pressure_oversampling.code()
            + config.temperature_oversampling.code(),
        filter_bits(config) == 8 * config.pressure_iir_filter.code()
            + config.temperature_iir_filter.code(),
        Field::DataRate.value(config) == 4 * config.output_data_rate.code(),
        oversampling_bits(config) & Field::Oversampling.mask() == oversampling_bits(config),
        filter_bits(config) & 0x3F == filter_bits(config),
        Field::DataRate.value(config) & Field::DataRate.mask() == Field::DataRate.value(config),
{
    let code: u8 = config.output_data_rate.code();
    assert(code < 32 ==> (code << 2) == 4 * code && (code << 2) & 0x7Cu8 == (code << 2))
        by (bit_vector);
    let p: u8 = config.pressure_oversampling.code();
    let t: u8 = config.temperature_oversampling.code();
    assert(p < 8 && t < 8 ==> (0x40u8 | (p << 3) | t) == 64 + 8 * p + t && (0x40u8 | (p << 3) | t)
        & (0x3Fu8 | 0x40u8) == (0x40u8 | (p << 3) | t)) by (bit_vector);
    let q: u8 = config.pressure_iir_filter.code();
    let u: u8 = config.temperature_iir_filter.code();
    assert(q < 8 && u < 8 ==> ((q << 3) | u) == 8 * q + u && ((q << 3) | u) & 0x3Fu8 == ((q << 3)
        | u)) by (bit_vector);
}

/// The byte that bring-up leaves in the rate register of a device that
/// keeps what is written to it, when the register held `odr_config` before:
/// the three masked updates of standby, data rate and normal mode, each
/// applied to what the one before left.
pub open spec fn configured_odr(config: Config, odr_config: u8) -> u8 {
    let standby = merged(odr_config, Field::Standby.mask(), Field::Standby.value(config));
    let rated = merged(standby, Field::DataRate.mask(), Field::DataRate.value(config));
    merged(rated, Field::Normal.mask(), Field::Normal.value(config))
}

/// What bring-up leaves in a device whose configuration registers keep what
/// is written to them. `odr_config`, `osr_config` and `int_source` are the
/// register contents before bring-up.
///
/// While the oversampling, the filter and the rate are written the power
/// mode is standby. Afterwards the power mode is normal with deep sleep
/// disabled, bits 2 to 6 of the rate register hold the code of the
/// configured rate, the oversampling register holds the configured codes
/// with the pressure channel enabled, and the data-ready interrupt source is
/// enabled. Every bit outside those fields is as it was before. Two
/// configurations with different rates leave different bytes in the rate
/// register.
pub proof fn lemma_configuration_takes_effect(
    config: Config,
    other: Config,
    odr_config: u8,
    osr_config: u8,
    int_source: u8,
)
    ensures
        ({
            let standby = merged(
                odr_config,
                Field::Standby.mask(),
                Field::Standby.value(config),
            );
            let rated = merged(standby, Field::DataRate.mask(), Field::DataRate.value(config));
            let normal = merged(rated, Field::Normal.mask(), Field::Normal.value(config));
            let oversampled = merged(
                osr_config,
                Field::Oversampling.mask(),
                Field::Oversampling.value(config),
            );
            let enabled = merged(
                int_source,
                Field::DataReady.mask(),
                Field::DataReady.value(config),
            );
            &&& normal == configured_odr(config, odr_config)
            &&& standby & constants::BMP5_MODE_MASK == constants::BMP5_MODE_STANDBY
            &&& rated & constants::BMP5_MODE_MASK == constants::BMP5_MODE_STANDBY
            &&& (rated & constants::BMP5_ODR_MASK) >> 2 == config.output_data_rate.code()
            &&& normal & constants::BMP5_MODE_MASK == constants::BMP5_MODE_NORMAL
            &&& normal & constants::BMP5_ODR_DEEPSLEEP_DIS == constants::BMP5_ODR_DEEPSLEEP_DIS
            &&& (normal & constants::BMP5_ODR_MASK) >> 2 == config.output_data_rate.code()
            &&& normal == 0x80 + 4 * config.output_data_rate.code() + 1
            &&& config.output_data_rate != other.output_data_rate ==> normal != configured_odr(
                other,
                odr_config,
            )
            &&& oversampled & 0x7F == oversampling_bits(config)
            &&& oversampled & 0x80 == osr_config & 0x80
            &&& enabled & constants::BMP5_INT_ENABLE_DRDY == constants::BMP5_INT_ENABLE_DRDY
            &&& enabled & !constants::BMP5_INT_ENABLE_DRDY == int_source
                & !constants::BMP5_INT_ENABLE_DRDY
        }),
{
    let osr: u8 = oversampling_bits(config);
    lemma_register_values(config);
    lemma_configured_odr(config, odr_config);
    lemma_configured_odr(other, odr_config);
    crate::config::lemma_rate_codes(config.output_data_rate, other.output_data_rate);
    let code: u8 = config.output_data_rate.code();
    assert({
        let standby = (odr_config & !(0x80u8 | 0x03u8)) | ((0x80u8 | 0x00u8) & (0x80u8 | 0x03u8));
        let rated = (standby & !0x7Cu8) | ((code << 2) & 0x7Cu8);
        &&& standby & 0x03u8 == 0x00u8
        &&& rated & 0x03u8 == 0x00u8
        &&& code < 32 ==> (rated & 0x7Cu8) >> 2 == code
    }) by (bit_vector);
    assert(osr & 0x7Fu8 == osr) by (bit_vector)
        requires
            osr & (0x3Fu8 | 0x40u8) == osr,
    ;
    assert({
        let oversampled = (osr_config & !(0x3Fu8 | 0x40u8)) | (osr & (0x3Fu8 | 0x40u8));
        &&& oversampled & 0x7Fu8 == osr & 0x7Fu8
        &&& oversampled & 0x80u8 == osr_config & 0x80u8
    }) by (bit_vector);
    assert({
        let enabled = (int_source & !0x01u8) | (0x01u8 & 0x01u8);
        &&& enabled & 0x01u8 == 0x01u8
        &&& enabled & !0x01u8 == int_source & !0x01u8
    }) by (bit_vector);
}

/// The byte left in the rate register does not depend on what the register
/// held before: it is 0x80 for deep sleep disabled, plus four times the rate
/// code, plus 1 for normal mode. Its bits 2 to 6 are the rate code.
pub proof fn lemma_configured_odr(config: Config, odr_config: u8)
    ensures
        configured_odr(config, odr_config) == 0x80 + 4 * config.output_data_rate.code() + 1,
        (configured_odr(config, odr_config) & constants::BMP5_ODR_MASK) >> 2
            == config.output_data_rate.code(),
        configured_odr(config, odr_config) & constants::BMP5_MODE_MASK
            == constants::BMP5_MODE_NORMAL,
        configured_odr(config, odr_config) & constants::BMP5_ODR_DEEPSLEEP_DIS
            == constants::BMP5_ODR_DEEPSLEEP_DIS,
{
    let code: u8 = config.output_data_rate.code();
    assert(code < 32 ==> ({
        let standby = (odr_config & !(0x80u8 | 0x03u8)) | ((0x80u8 | 0x00u8) & (0x80u8 | 0x03u8));
        let rated = (standby & !0x7Cu8) | ((code << 2) & 0x7Cu8);
        let normal = (rated & !0x03u8) | (0x01u8 & 0x03u8);
        &&& normal == 0x80 + 4 * code + 1
        &&& (normal & 0x7Cu8) >> 2 == code
        &&& normal & 0x03u8 == 0x01u8
        &&& normal & 0x80u8 == 0x80u8
    })) by (bit_vector);
}

/// The replies of a wait in which the interrupt status is read as each byte
/// of `stale` in turn, with the delay after each, followed by `rest`.
pub open spec fn poll_replies<E>(stale: Seq<u8>, rest: Seq<Reply<E>>) -> Seq<Reply<E>>
    decreases stale.len(),
{
    if stale.len() == 0 {
        rest
    } else {
        seq![Reply::Byte(stale.first()), Reply::Elapsed] + poll_replies(stale.drop_first(), rest)
    }
}

/// `rounds` times a delay of the polling interval and a read of the
/// interrupt status, followed by `rest`.
pub open spec fn poll_commands(state: State, rounds: nat, rest: Seq<Command>) -> Seq<Command>
    decreases rounds,
{
    if rounds == 0 {
        rest
    } else {
        seq![
            Command::Delay { micros: poll_interval_us(state.config) as u32 },
            state.read(constants::BMP5_REG_INT_STATUS),
        ] + poll_commands(state, (rounds - 1) as nat, rest)
    }
}

/// The commands asked for over a sequence of replies are the command, if
/// any, that answers the first reply, followed by those asked for over the
/// remaining replies.
pub proof fn lemma_asked_first<E>(state: State, reply: Reply<E>, rest: Seq<Reply<E>>)
    ensures
        state.asked(seq![reply] + rest) == ({
            let (next, progress) = state.step(reply);
            match progress {
                Progress::Next(command) => seq![command] + next.asked(rest),
                _ => next.asked(rest),
            }
        }),
{
    let replies = seq![reply] + rest;
    assert(replies.first() == reply);
    assert(replies.drop_first() == rest);
}

/// A measurement waits as long as the device needs: for every status byte
/// that reports no sample the driver asks for one delay of the polling
/// interval and one more read of the status, and for nothing else. It goes
/// on as if begun afresh once those replies are used up.
pub proof fn lemma_wait_for_data_ready<E>(state: State, stale: Seq<u8>, rest: Seq<Reply<E>>)
    requires
        state.phase == Phase::StatusRead,
        forall|i: int| 0 <= i < stale.len() ==> !data_ready(#[trigger] stale[i]),
    ensures
        state.asked(poll_replies(stale, rest)) == poll_commands(
            state,
            stale.len(),
            state.asked(rest),
        ),
    decreases stale.len(),
{
    if stale.len() > 0 {
        let tail = poll_replies(stale.drop_first(), rest);
        let status = Reply::<E>::Byte(stale.first());
        assert(!data_ready(stale[0]));
        assert(poll_replies(stale, rest) == seq![status] + (seq![Reply::<E>::Elapsed] + tail));
        lemma_asked_first(state, status, seq![Reply::<E>::Elapsed] + tail);
        lemma_asked_first(state.at(Phase::PollDelay), Reply::<E>::Elapsed, tail);
        assert forall|i: int| 0 <= i < stale.drop_first().len() implies !data_ready(
            #[trigger] stale.drop_first()[i],
        ) by {
            assert(stale.drop_first()[i] == stale[i + 1]);
        }
        lemma_wait_for_data_ready(state, stale.drop_first(), rest);
        let delay = Command::Delay { micros: poll_interval_us(state.config) as u32 };
        let read = state.read(constants::BMP5_REG_INT_STATUS);
        let later = poll_commands(state, (stale.len() - 1) as nat, state.asked(rest));
        assert(seq![delay] + (seq![read] + later) == seq![delay, read] + later);
    }
}

/// A whole measurement: after any number of status bytes that report no
/// sample, the first that reports one is followed by the read of the six
/// data registers, and nothing is asked for after the sample has arrived.
pub proof fn lemma_measure_transcript<E>(state: State, stale: Seq<u8>, ready: u8, block: [u8; 6])
    requires
        forall|i: int| 0 <= i < stale.len() ==> !data_ready(#[trigger] stale[i]),
        data_ready(ready),
    ensures
        ({
            let (polling, first) = state.begin_measure();
            &&& first == state.read(constants::BMP5_REG_INT_STATUS)
            &&& polling.asked(
                poll_replies(stale, seq![Reply::<E>::Byte(ready), Reply::<E>::Sample(block)]),
            ) == poll_commands(
                polling,
                stale.len(),
                seq![
                    Command::ReadSample {
                        address: state.address,
                        register: constants::BMP5_REG_TEMP_DATA_XLSB,
                    },
                ],
            )
        }),
{
    let (polling, first) = state.begin_measure();
    let status = Reply::<E>::Byte(ready);
    let sample = Reply::<E>::Sample(block);
    let burst = Command::ReadSample {
        address: state.address,
        register: constants::BMP5_REG_TEMP_DATA_XLSB,
    };
    assert(seq![status, sample] == seq![status] + (seq![sample] + Seq::<Reply<E>>::empty()));
    lemma_asked_first(polling, status, seq![sample] + Seq::<Reply<E>>::empty());
    lemma_asked_first(polling.at(Phase::SampleRead), sample, Seq::<Reply<E>>::empty());
    assert(polling.at(Phase::Idle).asked(Seq::<Reply<E>>::empty()) == Seq::<Command>::empty());
    assert(seq![burst] + Seq::<Command>::empty() == seq![burst]);
    lemma_wait_for_data_ready(polling, stale, seq![status, sample]);
}

} // verus!
