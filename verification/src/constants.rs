//! Register catalog of the BMP5 family: addresses, bit fields, field codes
//! and command opcodes.

use vstd::prelude::*;

verus! {

// Register addresses
pub const BMP5_REG_CHIP_ID: u8 = 0x01;
pub const BMP5_REG_REV_ID: u8 = 0x02;
pub const BMP5_REG_CHIP_STATUS: u8 = 0x11;
pub const BMP5_REG_DRIVE_CONFIG: u8 = 0x13;
pub const BMP5_REG_INT_CONFIG: u8 = 0x14;
pub const BMP5_REG_INT_SOURCE: u8 = 0x15;
pub const BMP5_REG_FIFO_CONFIG: u8 = 0x16;
pub const BMP5_REG_FIFO_COUNT: u8 = 0x17;
pub const BMP5_REG_FIFO_SEL: u8 = 0x18;
pub const BMP5_REG_TEMP_DATA_XLSB: u8 = 0x1D;
pub const BMP5_REG_TEMP_DATA_LSB: u8 = 0x1E;
pub const BMP5_REG_TEMP_DATA_MSB: u8 = 0x1F;
pub const BMP5_REG_PRESS_DATA_XLSB: u8 = 0x20;
pub const BMP5_REG_PRESS_DATA_LSB: u8 = 0x21;
pub const BMP5_REG_PRESS_DATA_MSB: u8 = 0x22;
pub const BMP5_REG_INT_STATUS: u8 = 0x27;
pub const BMP5_REG_STATUS: u8 = 0x28;
pub const BMP5_REG_FIFO_DATA: u8 = 0x29;
pub const BMP5_REG_NVM_ADDR: u8 = 0x2B;
pub const BMP5_REG_NVM_DATA_LSB: u8 = 0x2C;
pub const BMP5_REG_NVM_DATA_MSB: u8 = 0x2D;
pub const BMP5_REG_DSP_CONFIG: u8 = 0x30;
pub const BMP5_REG_DSP_IIR: u8 = 0x31;
pub const BMP5_REG_OOR_THR_P_LSB: u8 = 0x32;
pub const BMP5_REG_OOR_THR_P_MSB: u8 = 0x33;
pub const BMP5_REG_OOR_RANGE: u8 = 0x34;
pub const BMP5_REG_OOR_CONFIG: u8 = 0x35;
pub const BMP5_REG_OSR_CONFIG: u8 = 0x36;
pub const BMP5_REG_ODR_CONFIG: u8 = 0x37;
pub const BMP5_REG_OSR_EFF: u8 = 0x38;
pub const BMP5_REG_CMD: u8 = 0x7E;

// Commands
pub const BMP5_CMD_NOOP: u8 = 0x00;
pub const BMP5_CMD_EXTMODE_SEQ_0: u8 = 0x73;
pub const BMP5_CMD_EXTMODE_SEQ_1: u8 = 0xB4;
pub const BMP5_CMD_EXTMODE_SEQ_2: u8 = 0x69;
pub const BMP5_CMD_NVM_OP_SEQ_0: u8 = 0x5D;
pub const BMP5_CMD_NVM_READ_SEQ_1: u8 = 0xA5;
pub const BMP5_CMD_NVM_WRITE_SEQ_1: u8 = 0xA0;
pub const BMP5_CMD_SOFT_RESET: u8 = 0xB6;

// Power mode selection
pub const BMP5_MODE_MASK: u8 = 0x03;
pub const BMP5_MODE_STANDBY: u8 = 0x00;
pub const BMP5_MODE_NORMAL: u8 = 0x01;
pub const BMP5_MODE_FORCED: u8 = 0x02;
pub const BMP5_MODE_CONTINOUS: u8 = 0x03;
pub const BMP5_ODR_DEEPSLEEP_DIS: u8 = 0x80;

// Output data rate codes
pub const BMP5_ODR_MASK: u8 = 0x7C;
pub const BMP5_ODR_240_HZ: u8 = 0x00;
pub const BMP5_ODR_218_5_HZ: u8 = 0x01;
pub const BMP5_ODR_199_1_HZ: u8 = 0x02;
pub const BMP5_ODR_179_2_HZ: u8 = 0x03;
pub const BMP5_ODR_160_HZ: u8 = 0x04;
pub const BMP5_ODR_149_3_HZ: u8 = 0x05;
pub const BMP5_ODR_140_HZ: u8 = 0x06;
pub const BMP5_ODR_129_8_HZ: u8 = 0x07;
pub const BMP5_ODR_120_HZ: u8 = 0x08;
pub const BMP5_ODR_110_1_HZ: u8 = 0x09;
pub const BMP5_ODR_100_2_HZ: u8 = 0x0A;
pub const BMP5_ODR_89_6_HZ: u8 = 0x0B;
pub const BMP5_ODR_80_HZ: u8 = 0x0C;
pub const BMP5_ODR_70_HZ: u8 = 0x0D;
pub const BMP5_ODR_60_HZ: u8 = 0x0E;
pub const BMP5_ODR_50_HZ: u8 = 0x0F;
pub const BMP5_ODR_45_HZ: u8 = 0x10;
pub const BMP5_ODR_40_HZ: u8 = 0x11;
pub const BMP5_ODR_35_HZ: u8 = 0x12;
pub const BMP5_ODR_30_HZ: u8 = 0x13;
pub const BMP5_ODR_25_HZ: u8 = 0x14;
pub const BMP5_ODR_20_HZ: u8 = 0x15;
pub const BMP5_ODR_15_HZ: u8 = 0x16;
pub const BMP5_ODR_10_HZ: u8 = 0x17;
pub const BMP5_ODR_05_HZ: u8 = 0x18;
pub const BMP5_ODR_04_HZ: u8 = 0x19;
pub const BMP5_ODR_03_HZ: u8 = 0x1A;
pub const BMP5_ODR_02_HZ: u8 = 0x1B;
pub const BMP5_ODR_01_HZ: u8 = 0x1C;
pub const BMP5_ODR_0_5_HZ: u8 = 0x1D;
pub const BMP5_ODR_0_250_HZ: u8 = 0x1E;
pub const BMP5_ODR_0_125_HZ: u8 = 0x1F;

// Oversampling codes for temperature and pressure
pub const BMP5_OSR_MASK: u8 = 0x3F;
pub const BMP5_OSR_1X: u8 = 0x00;
pub const BMP5_OSR_2X: u8 = 0x01;
pub const BMP5_OSR_4X: u8 = 0x02;
pub const BMP5_OSR_8X: u8 = 0x03;
pub const BMP5_OSR_16X: u8 = 0x04;
pub const BMP5_OSR_32X: u8 = 0x05;
pub const BMP5_OSR_64X: u8 = 0x06;
pub const BMP5_OSR_128X: u8 = 0x07;
pub const BMP5_OSR_PRESS_EN: u8 = 0x40;

pub const BMP5_OSR_EFF_VALID_ODR: u8 = 0x80;

// IIR filter codes for temperature and pressure
pub const BMP5_IIR_FILTER_BYPASS: u8 = 0x00;
pub const BMP5_IIR_FILTER_COEFF_1: u8 = 0x01;
pub const BMP5_IIR_FILTER_COEFF_3: u8 = 0x02;
pub const BMP5_IIR_FILTER_COEFF_7: u8 = 0x03;
pub const BMP5_IIR_FILTER_COEFF_15: u8 = 0x04;
pub const BMP5_IIR_FILTER_COEFF_31: u8 = 0x05;
pub const BMP5_IIR_FILTER_COEFF_63: u8 = 0x06;
pub const BMP5_IIR_FILTER_COEFF_127: u8 = 0x07;

// Data-ready interrupt: source enable and status bit
pub const BMP5_INT_ENABLE_DRDY: u8 = 0x01;
pub const BMP5_INT_STATUS_DRDY: u8 = 0x01;

// Chip id of BMP5x
pub const BMP5_CHIP_ID: u8 = 0x50;
pub const BMP5_CHIP_ID_ALT: u8 = 0x51;

// Settling time after a soft reset or a mode change, in microseconds
pub const BMP5_SETTLE_US: u32 = 2500;

} // verus!
