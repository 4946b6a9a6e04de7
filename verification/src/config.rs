//! Configuration choices and their register encodings.
//!
//! Each choice is a plain enum. Its register code is a pure function of the
//! variant, stated once as a spec function; the conversions into `u8` are
//! proved against it.

use crate::constants;
use vstd::arithmetic::power2::{lemma2_to64, pow2};
use vstd::prelude::*;
use vstd::std_specs::convert::FromSpecImpl;

verus! {

/// Temperature/pressure oversampling
#[derive(Debug, Copy, Clone, PartialEq, Eq)]
pub enum Oversampling {
    /// 1x oversampling, 0.78 Pa RMS noise, max rate 498 Hz
    Oversampling1X,
    /// 2x oversampling, 0.58 Pa RMS noise, max rate 374 Hz
    Oversampling2X,
    /// 4x oversampling, 0.41 Pa RMS noise, max rate 255 Hz
    Oversampling4X,
    /// 8x oversampling, 0.30 Pa RMS noise, max rate 155 Hz
    Oversampling8X,
    /// 16x oversampling, 0.21 Pa RMS noise, max rate 87 Hz
    Oversampling16x,
    /// 32x oversampling, 0.15 Pa RMS noise, max rate 46 Hz
    Oversampling32x,
    /// 64x oversampling, 0.11 Pa RMS noise, max rate 24 Hz
    Oversampling64x,
    /// 128x oversampling, 0.08 Pa RMS noise, max rate 12 Hz
    Oversampling128x,
}

impl Oversampling {
    /// Number of raw acquisitions averaged into one sample.
    pub open spec fn ratio(self) -> nat {
        match self {
            Oversampling::Oversampling1X => 1,
            Oversampling::Oversampling2X => 2,
            Oversampling::Oversampling4X => 4,
            Oversampling::Oversampling8X => 8,
            Oversampling::Oversampling16x => 16,
            Oversampling::Oversampling32x => 32,
            Oversampling::Oversampling64x => 64,
            Oversampling::Oversampling128x => 128,
        }
    }

    /// The three-bit field code of this choice.
    pub open spec fn code(self) -> u8 {
        match self {
            Oversampling::Oversampling1X => constants::BMP5_OSR_1X,
            Oversampling::Oversampling2X => constants::BMP5_OSR_2X,
            Oversampling::Oversampling4X => constants::BMP5_OSR_4X,
            Oversampling::Oversampling8X => constants::BMP5_OSR_8X,
            Oversampling::Oversampling16x => constants::BMP5_OSR_16X,
            Oversampling::Oversampling32x => constants::BMP5_OSR_32X,
            Oversampling::Oversampling64x => constants::BMP5_OSR_64X,
            Oversampling::Oversampling128x => constants::BMP5_OSR_128X,
        }
    }
}

impl Default for Oversampling {
    fn default() -> (choice: Self)
        ensures
            choice == Oversampling::Oversampling1X,
    {
        Oversampling::Oversampling1X
    }
}

impl From<Oversampling> for u8 {
    fn from(oversampling: Oversampling) -> (code: u8) {
        match oversampling {
            Oversampling::Oversampling1X => constants::BMP5_OSR_1X,
            Oversampling::Oversampling2X => constants::BMP5_OSR_2X,
            Oversampling::Oversampling4X => constants::BMP5_OSR_4X,
            Oversampling::Oversampling8X => constants::BMP5_OSR_8X,
            Oversampling::Oversampling16x => constants::BMP5_OSR_16X,
            Oversampling::Oversampling32x => constants::BMP5_OSR_32X,
            Oversampling::Oversampling64x => constants::BMP5_OSR_64X,
            Oversampling::Oversampling128x => constants::BMP5_OSR_128X,
        }
    }
}

impl FromSpecImpl<Oversampling> for u8 {
    open spec fn obeys_from_spec() -> bool {
        true
    }

    open spec fn from_spec(v: Oversampling) -> u8 {
        v.code()
    }
}

/// IIR low-pass filter
#[derive(Debug, Copy, Clone, PartialEq, Eq)]
pub enum IIRFilter {
    /// No filtering
    Bypass,
    /// -3dB cutoff @ 0.1147 Hz
    Coeff1,
    /// -3dB cutoff @ 0.0459 Hz
    Coeff3,
    /// -3dB cutoff @ 0.0212 Hz
    Coeff7,
    /// -3dB cutoff @ 0.01025 Hz
    Coeff15,
    /// -3dB cutoff @ 0.00504 Hz
    Coeff31,
    /// -3dB cutoff @ 0.00250 Hz
    Coeff63,
    /// -3dB cutoff @ 0.00125 Hz
    Coeff127,
}

impl IIRFilter {
    /// The filter coefficient; zero when the filter is bypassed.
    pub open spec fn coefficient(self) -> nat {
        match self {
            IIRFilter::Bypass => 0,
            IIRFilter::Coeff1 => 1,
            IIRFilter::Coeff3 => 3,
            IIRFilter::Coeff7 => 7,
            IIRFilter::Coeff15 => 15,
            IIRFilter::Coeff31 => 31,
            IIRFilter::Coeff63 => 63,
            IIRFilter::Coeff127 => 127,
        }
    }

    /// The three-bit field code of this choice.
    pub open spec fn code(self) -> u8 {
        match self {
            IIRFilter::Bypass => constants::BMP5_IIR_FILTER_BYPASS,
            IIRFilter::Coeff1 => constants::BMP5_IIR_FILTER_COEFF_1,
            IIRFilter::Coeff3 => constants::BMP5_IIR_FILTER_COEFF_3,
            IIRFilter::Coeff7 => constants::BMP5_IIR_FILTER_COEFF_7,
            IIRFilter::Coeff15 => constants::BMP5_IIR_FILTER_COEFF_15,
            IIRFilter::Coeff31 => constants::BMP5_IIR_FILTER_COEFF_31,
            IIRFilter::Coeff63 => constants::BMP5_IIR_FILTER_COEFF_63,
            IIRFilter::Coeff127 => constants::BMP5_IIR_FILTER_COEFF_127,
        }
    }
}

impl From<IIRFilter> for u8 {
    fn from(coeff: IIRFilter) -> (code: u8) {
        match coeff {
            IIRFilter::Bypass => constants::BMP5_IIR_FILTER_BYPASS,
            IIRFilter::Coeff1 => constants::BMP5_IIR_FILTER_COEFF_1,
            IIRFilter::Coeff3 => constants::BMP5_IIR_FILTER_COEFF_3,
            IIRFilter::Coeff7 => constants::BMP5_IIR_FILTER_COEFF_7,
            IIRFilter::Coeff15 => constants::BMP5_IIR_FILTER_COEFF_15,
            IIRFilter::Coeff31 => constants::BMP5_IIR_FILTER_COEFF_31,
            IIRFilter::Coeff63 => constants::BMP5_IIR_FILTER_COEFF_63,
            IIRFilter::Coeff127 => constants::BMP5_IIR_FILTER_COEFF_127,
        }
    }
}

impl FromSpecImpl<IIRFilter> for u8 {
    open spec fn obeys_from_spec() -> bool {
        true
    }

    open spec fn from_spec(v: IIRFilter) -> u8 {
        v.code()
    }
}

impl Default for IIRFilter {
    fn default() -> (choice: Self)
        ensures
            choice == IIRFilter::Bypass,
    {
        IIRFilter::Bypass
    }
}

/// Output data rate
#[derive(Debug, Copy, Clone, PartialEq, Eq)]
pub enum OutputDataRate {
    /// 0.125 Hz
    OutputDataRate0_125Hz,
    /// 0.250 Hz
    OutputDataRate0_250Hz,
    /// 0.5 Hz
    OutputDataRate0_5Hz,
    /// 1 Hz
    OutputDataRate1Hz,
    /// 2 Hz
    OutputDataRate2Hz,
    /// 3 Hz
    OutputDataRate3Hz,
    /// 4 Hz
    OutputDataRate4Hz,
    /// 5 Hz
    OutputDataRate5Hz,
    /// 10 Hz
    OutputDataRate10Hz,
    /// 15 Hz
    OutputDataRate15Hz,
    /// 20 Hz
    OutputDataRate20Hz,
    /// 25 Hz
    OutputDataRate25Hz,
    /// 30 Hz
    OutputDataRate30Hz,
    /// 35 Hz
    OutputDataRate35Hz,
    /// 40 Hz
    OutputDataRate40Hz,
    /// 45 Hz
    OutputDataRate45Hz,
    /// 50 Hz
    OutputDataRate50Hz,
    /// 60 Hz
    OutputDataRate60Hz,
    /// 70 Hz
    OutputDataRate70Hz,
    /// 80 Hz
    OutputDataRate80Hz,
    /// 89.6 Hz
    OutputDataRate89_6Hz,
    /// 100.2 Hz
    OutputDataRate100_2Hz,
    /// 110.1 Hz
    OutputDataRate110_1Hz,
    /// 120 Hz
    OutputDataRate120Hz,
    /// 129.8 Hz
    OutputDataRate129_8Hz,
    /// 140 Hz
    OutputDataRate140Hz,
    /// 149.3 Hz
    OutputDataRate149_3Hz,
    /// 160 Hz
    OutputDataRate160Hz,
    /// 179.2 Hz
    OutputDataRate179_2Hz,
    /// 199.1 Hz
    OutputDataRate199_1Hz,
    /// 218.5 Hz
    OutputDataRate218_5Hz,
    /// 240 Hz
    OutputDataRate240Hz,
}

impl OutputDataRate {
    /// The rate in thousandths of a hertz.
    pub open spec fn millihertz(self) -> nat {
        match self {
            OutputDataRate::OutputDataRate0_125Hz => 125,
            OutputDataRate::OutputDataRate0_250Hz => 250,
            OutputDataRate::OutputDataRate0_5Hz => 500,
            OutputDataRate::OutputDataRate1Hz => 1_000,
            OutputDataRate::OutputDataRate2Hz => 2_000,
            OutputDataRate::OutputDataRate3Hz => 3_000,
            OutputDataRate::OutputDataRate4Hz => 4_000,
            OutputDataRate::OutputDataRate5Hz => 5_000,
            OutputDataRate::OutputDataRate10Hz => 10_000,
            OutputDataRate::OutputDataRate15Hz => 15_000,
            OutputDataRate::OutputDataRate20Hz => 20_000,
            OutputDataRate::OutputDataRate25Hz => 25_000,
            OutputDataRate::OutputDataRate30Hz => 30_000,
            OutputDataRate::OutputDataRate35Hz => 35_000,
            OutputDataRate::OutputDataRate40Hz => 40_000,
            OutputDataRate::OutputDataRate45Hz => 45_000,
            OutputDataRate::OutputDataRate50Hz => 50_000,
            OutputDataRate::OutputDataRate60Hz => 60_000,
            OutputDataRate::OutputDataRate70Hz => 70_000,
            OutputDataRate::OutputDataRate80Hz => 80_000,
            OutputDataRate::OutputDataRate89_6Hz => 89_600,
            OutputDataRate::OutputDataRate100_2Hz => 100_200,
            OutputDataRate::OutputDataRate110_1Hz => 110_100,
            OutputDataRate::OutputDataRate120Hz => 120_000,
            OutputDataRate::OutputDataRate129_8Hz => 129_800,
            OutputDataRate::OutputDataRate140Hz => 140_000,
            OutputDataRate::OutputDataRate149_3Hz => 149_300,
            OutputDataRate::OutputDataRate160Hz => 160_000,
            OutputDataRate::OutputDataRate179_2Hz => 179_200,
            OutputDataRate::OutputDataRate199_1Hz => 199_100,
            OutputDataRate::OutputDataRate218_5Hz => 218_500,
            OutputDataRate::OutputDataRate240Hz => 240_000,
        }
    }

    /// The five-bit field code of this rate.
    pub open spec fn code(self) -> u8 {
        match self {
            OutputDataRate::OutputDataRate0_125Hz => constants::BMP5_ODR_0_125_HZ,
            OutputDataRate::OutputDataRate0_250Hz => constants::BMP5_ODR_0_250_HZ,
            OutputDataRate::OutputDataRate0_5Hz => constants::BMP5_ODR_0_5_HZ,
            OutputDataRate::OutputDataRate1Hz => constants::BMP5_ODR_01_HZ,
            OutputDataRate::OutputDataRate2Hz => constants::BMP5_ODR_02_HZ,
            OutputDataRate::OutputDataRate3Hz => constants::BMP5_ODR_03_HZ,
            OutputDataRate::OutputDataRate4Hz => constants::BMP5_ODR_04_HZ,
            OutputDataRate::OutputDataRate5Hz => constants::BMP5_ODR_05_HZ,
            OutputDataRate::OutputDataRate10Hz => constants::BMP5_ODR_10_HZ,
            OutputDataRate::OutputDataRate15Hz => constants::BMP5_ODR_15_HZ,
            OutputDataRate::OutputDataRate20Hz => constants::BMP5_ODR_20_HZ,
            OutputDataRate::OutputDataRate25Hz => constants::BMP5_ODR_25_HZ,
            OutputDataRate::OutputDataRate30Hz => constants::BMP5_ODR_30_HZ,
            OutputDataRate::OutputDataRate35Hz => constants::BMP5_ODR_35_HZ,
            OutputDataRate::OutputDataRate40Hz => constants::BMP5_ODR_40_HZ,
            OutputDataRate::OutputDataRate45Hz => constants::BMP5_ODR_45_HZ,
            OutputDataRate::OutputDataRate50Hz => constants::BMP5_ODR_50_HZ,
            OutputDataRate::OutputDataRate60Hz => constants::BMP5_ODR_60_HZ,
            OutputDataRate::OutputDataRate70Hz => constants::BMP5_ODR_70_HZ,
            OutputDataRate::OutputDataRate80Hz => constants::BMP5_ODR_80_HZ,
            OutputDataRate::OutputDataRate89_6Hz => constants::BMP5_ODR_89_6_HZ,
            OutputDataRate::OutputDataRate100_2Hz => constants::BMP5_ODR_100_2_HZ,
            OutputDataRate::OutputDataRate110_1Hz => constants::BMP5_ODR_110_1_HZ,
            OutputDataRate::OutputDataRate120Hz => constants::BMP5_ODR_120_HZ,
            OutputDataRate::OutputDataRate129_8Hz => constants::BMP5_ODR_129_8_HZ,
            OutputDataRate::OutputDataRate140Hz => constants::BMP5_ODR_140_HZ,
            OutputDataRate::OutputDataRate149_3Hz => constants::BMP5_ODR_149_3_HZ,
            OutputDataRate::OutputDataRate160Hz => constants::BMP5_ODR_160_HZ,
            OutputDataRate::OutputDataRate179_2Hz => constants::BMP5_ODR_179_2_HZ,
            OutputDataRate::OutputDataRate199_1Hz => constants::BMP5_ODR_199_1_HZ,
            OutputDataRate::OutputDataRate218_5Hz => constants::BMP5_ODR_218_5_HZ,
            OutputDataRate::OutputDataRate240Hz => constants::BMP5_ODR_240_HZ,
        }
    }

    /// The time between two samples in microseconds: the reciprocal of the
    /// rate, rounded to the nearest whole microsecond.
    pub open spec fn spec_period_us(self) -> nat {
        (1_000_000_000 + self.millihertz() / 2) / self.millihertz()
    }

    /// The time between two samples in microseconds.
    pub fn period_us(&self) -> (micros: u32)
        ensures
            micros == self.spec_period_us(),
            4 <= micros <= 8_000_000,
    {
        match self {
            OutputDataRate::OutputDataRate0_125Hz => 8_000_000,
            OutputDataRate::OutputDataRate0_250Hz => 4_000_000,
            OutputDataRate::OutputDataRate0_5Hz => 2_000_000,
            OutputDataRate::OutputDataRate1Hz => 1_000_000,
            OutputDataRate::OutputDataRate2Hz => 500_000,
            OutputDataRate::OutputDataRate3Hz => 333_333,
            OutputDataRate::OutputDataRate4Hz => 250_000,
            OutputDataRate::OutputDataRate5Hz => 200_000,
            OutputDataRate::OutputDataRate10Hz => 100_000,
            OutputDataRate::OutputDataRate15Hz => 66_667,
            OutputDataRate::OutputDataRate20Hz => 50_000,
            OutputDataRate::OutputDataRate25Hz => 40_000,
            OutputDataRate::OutputDataRate30Hz => 33_333,
            OutputDataRate::OutputDataRate35Hz => 28_571,
            OutputDataRate::OutputDataRate40Hz => 25_000,
            OutputDataRate::OutputDataRate45Hz => 22_222,
            OutputDataRate::OutputDataRate50Hz => 20_000,
            OutputDataRate::OutputDataRate60Hz => 16_667,
            OutputDataRate::OutputDataRate70Hz => 14_286,
            OutputDataRate::OutputDataRate80Hz => 12_500,
            OutputDataRate::OutputDataRate89_6Hz => 11_161,
            OutputDataRate::OutputDataRate100_2Hz => 9_980,
            OutputDataRate::OutputDataRate110_1Hz => 9_083,
            OutputDataRate::OutputDataRate120Hz => 8_333,
            OutputDataRate::OutputDataRate129_8Hz => 7_704,
            OutputDataRate::OutputDataRate140Hz => 7_143,
            OutputDataRate::OutputDataRate149_3Hz => 6_698,
            OutputDataRate::OutputDataRate160Hz => 6_250,
            OutputDataRate::OutputDataRate179_2Hz => 5_580,
            OutputDataRate::OutputDataRate199_1Hz => 5_023,
            OutputDataRate::OutputDataRate218_5Hz => 4_577,
            OutputDataRate::OutputDataRate240Hz => 4_167,
        }
    }
}

impl From<OutputDataRate> for u8 {
    fn from(output_data_rate: OutputDataRate) -> (code: u8) {
        match output_data_rate {
            OutputDataRate::OutputDataRate0_125Hz => constants::BMP5_ODR_0_125_HZ,
            OutputDataRate::OutputDataRate0_250Hz => constants::BMP5_ODR_0_250_HZ,
            OutputDataRate::OutputDataRate0_5Hz => constants::BMP5_ODR_0_5_HZ,
            OutputDataRate::OutputDataRate1Hz => constants::BMP5_ODR_01_HZ,
            OutputDataRate::OutputDataRate2Hz => constants::BMP5_ODR_02_HZ,
            OutputDataRate::OutputDataRate3Hz => constants::BMP5_ODR_03_HZ,
            OutputDataRate::OutputDataRate4Hz => constants::BMP5_ODR_04_HZ,
            OutputDataRate::OutputDataRate5Hz => constants::BMP5_ODR_05_HZ,
            OutputDataRate::OutputDataRate10Hz => constants::BMP5_ODR_10_HZ,
            OutputDataRate::OutputDataRate15Hz => constants::BMP5_ODR_15_HZ,
            OutputDataRate::OutputDataRate20Hz => constants::BMP5_ODR_20_HZ,
            OutputDataRate::OutputDataRate25Hz => constants::BMP5_ODR_25_HZ,
            OutputDataRate::OutputDataRate30Hz => constants::BMP5_ODR_30_HZ,
            OutputDataRate::OutputDataRate35Hz => constants::BMP5_ODR_35_HZ,
            OutputDataRate::OutputDataRate40Hz => constants::BMP5_ODR_40_HZ,
            OutputDataRate::OutputDataRate45Hz => constants::BMP5_ODR_45_HZ,
            OutputDataRate::OutputDataRate50Hz => constants::BMP5_ODR_50_HZ,
            OutputDataRate::OutputDataRate60Hz => constants::BMP5_ODR_60_HZ,
            OutputDataRate::OutputDataRate70Hz => constants::BMP5_ODR_70_HZ,
            OutputDataRate::OutputDataRate80Hz => constants::BMP5_ODR_80_HZ,
            OutputDataRate::OutputDataRate89_6Hz => constants::BMP5_ODR_89_6_HZ,
            OutputDataRate::OutputDataRate100_2Hz => constants::BMP5_ODR_100_2_HZ,
            OutputDataRate::OutputDataRate110_1Hz => constants::BMP5_ODR_110_1_HZ,
            OutputDataRate::OutputDataRate120Hz => constants::BMP5_ODR_120_HZ,
            OutputDataRate::OutputDataRate129_8Hz => constants::BMP5_ODR_129_8_HZ,
            OutputDataRate::OutputDataRate140Hz => constants::BMP5_ODR_140_HZ,
            OutputDataRate::OutputDataRate149_3Hz => constants::BMP5_ODR_149_3_HZ,
            OutputDataRate::OutputDataRate160Hz => constants::BMP5_ODR_160_HZ,
            OutputDataRate::OutputDataRate179_2Hz => constants::BMP5_ODR_179_2_HZ,
            OutputDataRate::OutputDataRate199_1Hz => constants::BMP5_ODR_199_1_HZ,
            OutputDataRate::OutputDataRate218_5Hz => constants::BMP5_ODR_218_5_HZ,
            OutputDataRate::OutputDataRate240Hz => constants::BMP5_ODR_240_HZ,
        }
    }
}

impl FromSpecImpl<OutputDataRate> for u8 {
    open spec fn obeys_from_spec() -> bool {
        true
    }

    open spec fn from_spec(v: OutputDataRate) -> u8 {
        v.code()
    }
}

impl Default for OutputDataRate {
    fn default() -> (choice: Self)
        ensures
            choice == OutputDataRate::OutputDataRate25Hz,
    {
        OutputDataRate::OutputDataRate25Hz
    }
}

/// Configuration
#[derive(Debug, Copy, Clone, PartialEq, Eq)]
pub struct Config {
    /// Temperature oversampling
    pub temperature_oversampling: Oversampling,
    /// Temperature IIR low-pass filter
    pub temperature_iir_filter: IIRFilter,
    /// Pressure oversampling
    pub pressure_oversampling: Oversampling,
    /// Pressure IIR low-pass filter
    pub pressure_iir_filter: IIRFilter,
    /// Output data rate
    pub output_data_rate: OutputDataRate,
}

impl Default for Config {
    fn default() -> (config: Self)
        ensures
            config == (Config {
                temperature_oversampling: Oversampling::Oversampling1X,
                temperature_iir_filter: IIRFilter::Bypass,
                pressure_oversampling: Oversampling::Oversampling1X,
                pressure_iir_filter: IIRFilter::Bypass,
                output_data_rate: OutputDataRate::OutputDataRate25Hz,
            }),
    {
        Config {
            temperature_oversampling: Oversampling::Oversampling1X,
            temperature_iir_filter: IIRFilter::Bypass,
            pressure_oversampling: Oversampling::Oversampling1X,
            pressure_iir_filter: IIRFilter::Bypass,
            output_data_rate: OutputDataRate::OutputDataRate25Hz,
        }
    }
}

/// Oversampling codes are three bits wide and are the binary logarithm of
/// the ratio, so distinct choices have distinct codes and a higher ratio
/// has a higher code.
pub proof fn lemma_oversampling_codes(a: Oversampling, b: Oversampling)
    ensures
        a.code() < 8,
        pow2(a.code() as nat) == a.ratio(),
        a.code() == b.code() <==> a == b,
        a.code() < b.code() <==> a.ratio() < b.ratio(),
{
    lemma2_to64();
}

/// Filter codes are three bits wide and are the binary logarithm of the
/// coefficient plus one, so distinct choices have distinct codes and a
/// higher coefficient has a higher code.
pub proof fn lemma_filter_codes(a: IIRFilter, b: IIRFilter)
    ensures
        a.code() < 8,
        pow2(a.code() as nat) == a.coefficient() + 1,
        a.code() == b.code() <==> a == b,
        a.code() < b.code() <==> a.coefficient() < b.coefficient(),
{
    lemma2_to64();
}

/// Output data rate codes are five bits wide, distinct rates have distinct
/// codes, and a faster rate has a lower code.
pub proof fn lemma_rate_codes(a: OutputDataRate, b: OutputDataRate)
    ensures
        a.code() < 32,
        a.code() == b.code() <==> a == b,
        a.code() < b.code() <==> a.millihertz() > b.millihertz(),
{
}

/// The sample period is a positive number of microseconds that fits in 32
/// bits, differs from the exact reciprocal of the rate by at most half a
/// microsecond, and is longer for a slower rate.
pub proof fn lemma_period_rounds_reciprocal(a: OutputDataRate, b: OutputDataRate)
    ensures
        125 <= a.millihertz() <= 240_000,
        4_167 <= a.spec_period_us() <= 8_000_000,
        2 * a.spec_period_us() * a.millihertz() - a.millihertz() <= 2_000_000_000,
        2_000_000_000 < 2 * a.spec_period_us() * a.millihertz() + a.millihertz(),
        a.millihertz() < b.millihertz() <==> a.spec_period_us() > b.spec_period_us(),
{
    match a {
        OutputDataRate::OutputDataRate0_125Hz => {
            assert(2 * 8000000 * 125 - 125 <= 2_000_000_000 < 2 * 8000000 * 125 + 125);
        },
        OutputDataRate::OutputDataRate0_250Hz => {
            assert(2 * 4000000 * 250 - 250 <= 2_000_000_000 < 2 * 4000000 * 250 + 250);
        },
        OutputDataRate::OutputDataRate0_5Hz => {
            assert(2 * 2000000 * 500 - 500 <= 2_000_000_000 < 2 * 2000000 * 500 + 500);
        },
        OutputDataRate::OutputDataRate1Hz => {
            assert(2 * 1000000 * 1000 - 1000 <= 2_000_000_000 < 2 * 1000000 * 1000 + 1000);
        },
        OutputDataRate::OutputDataRate2Hz => {
            assert(2 * 500000 * 2000 - 2000 <= 2_000_000_000 < 2 * 500000 * 2000 + 2000);
        },
        OutputDataRate::OutputDataRate3Hz => {
            assert(2 * 333333 * 3000 - 3000 <= 2_000_000_000 < 2 * 333333 * 3000 + 3000);
        },
        OutputDataRate::OutputDataRate4Hz => {
            assert(2 * 250000 * 4000 - 4000 <= 2_000_000_000 < 2 * 250000 * 4000 + 4000);
        },
        OutputDataRate::OutputDataRate5Hz => {
            assert(2 * 200000 * 5000 - 5000 <= 2_000_000_000 < 2 * 200000 * 5000 + 5000);
        },
        OutputDataRate::OutputDataRate10Hz => {
            assert(2 * 100000 * 10000 - 10000 <= 2_000_000_000 < 2 * 100000 * 10000 + 10000);
        },
        OutputDataRate::OutputDataRate15Hz => {
            assert(2 * 66667 * 15000 - 15000 <= 2_000_000_000 < 2 * 66667 * 15000 + 15000);
        },
        OutputDataRate::OutputDataRate20Hz => {
            assert(2 * 50000 * 20000 - 20000 <= 2_000_000_000 < 2 * 50000 * 20000 + 20000);
        },
        OutputDataRate::OutputDataRate25Hz => {
            assert(2 * 40000 * 25000 - 25000 <= 2_000_000_000 < 2 * 40000 * 25000 + 25000);
        },
        OutputDataRate::OutputDataRate30Hz => {
            assert(2 * 33333 * 30000 - 30000 <= 2_000_000_000 < 2 * 33333 * 30000 + 30000);
        },
        OutputDataRate::OutputDataRate35Hz => {
            assert(2 * 28571 * 35000 - 35000 <= 2_000_000_000 < 2 * 28571 * 35000 + 35000);
        },
        OutputDataRate::OutputDataRate40Hz => {
            assert(2 * 25000 * 40000 - 40000 <= 2_000_000_000 < 2 * 25000 * 40000 + 40000);
        },
        OutputDataRate::OutputDataRate45Hz => {
            assert(2 * 22222 * 45000 - 45000 <= 2_000_000_000 < 2 * 22222 * 45000 + 45000);
        },
        OutputDataRate::OutputDataRate50Hz => {
            assert(2 * 20000 * 50000 - 50000 <= 2_000_000_000 < 2 * 20000 * 50000 + 50000);
        },
        OutputDataRate::OutputDataRate60Hz => {
            assert(2 * 16667 * 60000 - 60000 <= 2_000_000_000 < 2 * 16667 * 60000 + 60000);
        },
        OutputDataRate::OutputDataRate70Hz => {
            assert(2 * 14286 * 70000 - 70000 <= 2_000_000_000 < 2 * 14286 * 70000 + 70000);
        },
        OutputDataRate::OutputDataRate80Hz => {
            assert(2 * 12500 * 80000 - 80000 <= 2_000_000_000 < 2 * 12500 * 80000 + 80000);
        },
        OutputDataRate::OutputDataRate89_6Hz => {
            assert(2 * 11161 * 89600 - 89600 <= 2_000_000_000 < 2 * 11161 * 89600 + 89600);
        },
        OutputDataRate::OutputDataRate100_2Hz => {
            assert(2 * 9980 * 100200 - 100200 <= 2_000_000_000 < 2 * 9980 * 100200 + 100200);
        },
        OutputDataRate::OutputDataRate110_1Hz => {
            assert(2 * 9083 * 110100 - 110100 <= 2_000_000_000 < 2 * 9083 * 110100 + 110100);
        },
        OutputDataRate::OutputDataRate120Hz => {
            assert(2 * 8333 * 120000 - 120000 <= 2_000_000_000 < 2 * 8333 * 120000 + 120000);
        },
        OutputDataRate::OutputDataRate129_8Hz => {
            assert(2 * 7704 * 129800 - 129800 <= 2_000_000_000 < 2 * 7704 * 129800 + 129800);
        },
        OutputDataRate::OutputDataRate140Hz => {
            assert(2 * 7143 * 140000 - 140000 <= 2_000_000_000 < 2 * 7143 * 140000 + 140000);
        },
        OutputDataRate::OutputDataRate149_3Hz => {
            assert(2 * 6698 * 149300 - 149300 <= 2_000_000_000 < 2 * 6698 * 149300 + 149300);
        },
        OutputDataRate::OutputDataRate160Hz => {
            assert(2 * 6250 * 160000 - 160000 <= 2_000_000_000 < 2 * 6250 * 160000 + 160000);
        },
        OutputDataRate::OutputDataRate179_2Hz => {
            assert(2 * 5580 * 179200 - 179200 <= 2_000_000_000 < 2 * 5580 * 179200 + 179200);
        },
        OutputDataRate::OutputDataRate199_1Hz => {
            assert(2 * 5023 * 199100 - 199100 <= 2_000_000_000 < 2 * 5023 * 199100 + 199100);
        },
        OutputDataRate::OutputDataRate218_5Hz => {
            assert(2 * 4577 * 218500 - 218500 <= 2_000_000_000 < 2 * 4577 * 218500 + 218500);
        },
        OutputDataRate::OutputDataRate240Hz => {
            assert(2 * 4167 * 240000 - 240000 <= 2_000_000_000 < 2 * 4167 * 240000 + 240000);
        },
    }
}

} // verus!
