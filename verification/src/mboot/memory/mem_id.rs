//! Identifiers of the memories that a command can address.
use vstd::prelude::*;

verus! {

/// Internal RAM or flash.
pub const INTERNAL_MEMORY: u32 = 0;

/// Quad SPI memory 0.
pub const QUAD_SPI0: u32 = 1;

/// Nonvolatile information register 0.
pub const IFR: u32 = 4;

/// Fuses.
pub const FUSE: u32 = 4;

/// SEMC NOR memory.
pub const SEMC_NOR: u32 = 8;

/// FlexSPI NOR memory.
pub const FLEX_SPI_NOR: u32 = 9;

/// SPIFI NOR memory.
pub const SPIFI_NOR: u32 = 10;

/// Execute-only region of the internal flash.
pub const FLASH_EXEC_ONLY: u32 = 16;

/// SEMC NAND memory.
pub const SEMC_NAND: u32 = 256;

/// SPI NAND memory.
pub const SPI_NAND: u32 = 257;

/// SPI NOR or EEPROM memory.
pub const SPI_NOR_EEPROM: u32 = 272;

/// I2C NOR or EEPROM memory.
pub const I2C_NOR_EEPROM: u32 = 273;

/// SD memory card.
pub const SD_CARD: u32 = 288;

/// MMC or eMMC memory card.
pub const MMC_CARD: u32 = 289;

} // verus!
