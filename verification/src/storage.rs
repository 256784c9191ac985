//! Board storage ICs usable for data (MCU internal flash and SRAM belong to the
//! bootloader): SDRAM 64 MiB (main RAM), NOR 128 MiB (code, execute in place),
//! NAND 512 MiB (mass storage).
use vstd::prelude::*;

use crate::board::{NAND_BASE, NAND_SIZE, NOR_BASE, NOR_SIZE, SDRAM_BASE, SDRAM_SIZE};

verus! {

/// Identity of a board storage device.
#[derive(Clone, Copy, Debug, PartialEq, Eq, Structural)]
pub enum StorageKind {
    /// Main system RAM (FMC SDRAM).
    Sdram,
    /// Parallel FMC NAND flash.
    Nand,
    /// QUADSPI NOR flash.
    Nor,
}

/// Static description of a storage device.
#[derive(Clone, Copy, Debug)]
pub struct StorageInfo {
    pub kind: StorageKind,
    pub name: &'static str,
    pub base: usize,
    pub size: usize,
    pub bus: &'static str,
}

/// Why a storage operation could not be carried out.
#[derive(Debug)]
pub enum StorageError {
    NotImplemented(&'static str),
}

/// Main RAM.
pub fn sdram_info() -> (r: StorageInfo)
    ensures
        r.kind == StorageKind::Sdram,
        r.name@ == "SDRAM"@,
        r.base == SDRAM_BASE,
        r.size == SDRAM_SIZE,
        r.bus@ == "FMC"@,
{
    StorageInfo { kind: StorageKind::Sdram, name: "SDRAM", base: SDRAM_BASE, size: SDRAM_SIZE, bus: "FMC" }
}

/// All board storage devices the OS may use for data: SDRAM, NAND, NOR.
pub fn board_storage() -> (r: Vec<StorageInfo>)
    ensures
        r@.len() == 3,
        r@[0].kind == StorageKind::Sdram && r@[0].base == SDRAM_BASE && r@[0].size == SDRAM_SIZE,
        r@[1].kind == StorageKind::Nand && r@[1].base == NAND_BASE && r@[1].size == NAND_SIZE,
        r@[2].kind == StorageKind::Nor && r@[2].base == NOR_BASE && r@[2].size == NOR_SIZE,
        r@[0].name@ == "SDRAM"@ && r@[1].name@ == "NAND"@ && r@[2].name@ == "NOR"@,
        r@[0].bus@ == "FMC"@ && r@[1].bus@ == "FMC"@ && r@[2].bus@ == "QUADSPI"@,
{
    let mut v: Vec<StorageInfo> = Vec::new();
    v.push(sdram_info());
    v.push(NandDevice::info());
    v.push(NorDevice::info());
    v
}

/// NAND chip (512 MiB) on FMC.
pub struct NandDevice;

impl NandDevice {
    pub fn info() -> (r: StorageInfo)
        ensures
            r.kind == StorageKind::Nand,
            r.name@ == "NAND"@,
            r.base == NAND_BASE,
            r.size == NAND_SIZE,
            r.bus@ == "FMC"@,
    {
        StorageInfo { kind: StorageKind::Nand, name: "NAND", base: NAND_BASE, size: NAND_SIZE, bus: "FMC" }
    }

    /// The FMC NAND driver is not written yet.
    pub fn init() -> (r: Result<(), StorageError>)
        ensures
            r matches Err(StorageError::NotImplemented(m)) && m@ == "FMC NAND driver"@,
    {
        Err(StorageError::NotImplemented("FMC NAND driver"))
    }
}

/// QUADSPI NOR (128 MiB).
pub struct NorDevice;

impl NorDevice {
    pub fn info() -> (r: StorageInfo)
        ensures
            r.kind == StorageKind::Nor,
            r.name@ == "NOR"@,
            r.base == NOR_BASE,
            r.size == NOR_SIZE,
            r.bus@ == "QUADSPI"@,
    {
        StorageInfo { kind: StorageKind::Nor, name: "NOR", base: NOR_BASE, size: NOR_SIZE, bus: "QUADSPI" }
    }

    /// The QUADSPI NOR driver is not written yet.
    pub fn init() -> (r: Result<(), StorageError>)
        ensures
            r matches Err(StorageError::NotImplemented(m)) && m@ == "QUADSPI NOR driver"@,
    {
        Err(StorageError::NotImplemented("QUADSPI NOR driver"))
    }
}

} // verus!
