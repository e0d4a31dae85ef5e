//! The values that pass between the driver layer and the FAT filesystem
//! module: access modes, mount options and result codes.

use vstd::prelude::*;

verus! {

//-------------------------------------------------------------------------------------------------
// File access modes
//-------------------------------------------------------------------------------------------------

/// The ways to open a file.
#[derive(Debug, Clone, Copy, PartialEq, Eq, Structural)]
pub enum FileAccessMode {
    Read,
    Write,
    OpenExisting,
    CreateNew,
    CreateAlways,
    OpenAlways,
    OpenApend,
}

impl FileAccessMode {
    /// The mode's flag bits, for use in contracts.
    pub open spec fn spec_bits(self) -> u8 {
        match self {
            FileAccessMode::Read => 0x01,
            FileAccessMode::Write => 0x02,
            FileAccessMode::OpenExisting => 0x00,
            FileAccessMode::CreateNew => 0x04,
            FileAccessMode::CreateAlways => 0x08,
            FileAccessMode::OpenAlways => 0x10,
            FileAccessMode::OpenApend => 0x30,
        }
    }

    /// The flag bits by which the filesystem module knows this mode.
    pub fn bits(self) -> (bits: u8)
        ensures
            bits == self.spec_bits(),
    {
        match self {
            FileAccessMode::Read => 0x01,
            FileAccessMode::Write => 0x02,
            FileAccessMode::OpenExisting => 0x00,
            FileAccessMode::CreateNew => 0x04,
            FileAccessMode::CreateAlways => 0x08,
            FileAccessMode::OpenAlways => 0x10,
            FileAccessMode::OpenApend => 0x30,
        }
    }
}

//-------------------------------------------------------------------------------------------------
// File mount options
//-------------------------------------------------------------------------------------------------

/// When a volume is mounted: at the first access to it, or at once.
#[derive(Debug, Clone, Copy, PartialEq, Eq, Structural)]
pub enum FileMountOption {
    Delayed,
    Immediately,
}

impl FileMountOption {
    /// The number by which the filesystem module knows this option: 0 for
    /// a delayed mount, 1 for an immediate one.
    pub fn code(self) -> (code: u8)
        ensures
            code == match self {
                FileMountOption::Delayed => 0u8,
                FileMountOption::Immediately => 1u8,
            },
    {
        match self {
            FileMountOption::Delayed => 0,
            FileMountOption::Immediately => 1,
        }
    }
}

//-------------------------------------------------------------------------------------------------
// Result codes
//-------------------------------------------------------------------------------------------------

/// The results that the filesystem module returns.
#[derive(Debug, Clone, Copy, PartialEq, Eq, Structural)]
pub enum FResult {
    FOk,
    FDiskErr,
    FIntErr,
    FNotReady,
    FNoFile,
    FNoPath,
    FInvalidName,
    FDenied,
    FExist,
    FInvalidObject,
    FWriteProtected,
    FInvalidDrive,
    FNotEnabled,
    FNoFilesystem,
    FMfksAborted,
    FTimeOut,
    FLocked,
    FNotEnoughCore,
    FTooManyOpenFiles,
    FInvalidParameter,
}

impl FResult {
    /// The number of this result, for use in contracts.
    pub open spec fn spec_code(self) -> u32 {
        match self {
            FResult::FOk => 0,
            FResult::FDiskErr => 1,
            FResult::FIntErr => 2,
            FResult::FNotReady => 3,
            FResult::FNoFile => 4,
            FResult::FNoPath => 5,
            FResult::FInvalidName => 6,
            FResult::FDenied => 7,
            FResult::FExist => 8,
            FResult::FInvalidObject => 9,
            FResult::FWriteProtected => 10,
            FResult::FInvalidDrive => 11,
            FResult::FNotEnabled => 12,
            FResult::FNoFilesystem => 13,
            FResult::FMfksAborted => 14,
            FResult::FTimeOut => 15,
            FResult::FLocked => 16,
            FResult::FNotEnoughCore => 17,
            FResult::FTooManyOpenFiles => 18,
            FResult::FInvalidParameter => 19,
        }
    }

    /// The number by which the filesystem module knows this result.
    pub fn code(self) -> (code: u32)
        ensures
            code == self.spec_code(),
            code <= 19,
    {
        match self {
            FResult::FOk => 0,
            FResult::FDiskErr => 1,
            FResult::FIntErr => 2,
            FResult::FNotReady => 3,
            FResult::FNoFile => 4,
            FResult::FNoPath => 5,
            FResult::FInvalidName => 6,
            FResult::FDenied => 7,
            FResult::FExist => 8,
            FResult::FInvalidObject => 9,
            FResult::FWriteProtected => 10,
            FResult::FInvalidDrive => 11,
            FResult::FNotEnabled => 12,
            FResult::FNoFilesystem => 13,
            FResult::FMfksAborted => 14,
            FResult::FTimeOut => 15,
            FResult::FLocked => 16,
            FResult::FNotEnoughCore => 17,
            FResult::FTooManyOpenFiles => 18,
            FResult::FInvalidParameter => 19,
        }
    }

    /// The result that the filesystem module knows by the number `code`.
    /// The module has twenty results, numbered from 0; a larger number is
    /// no result.
    pub fn from_fresult(code: u32) -> (result: Option<FResult>)
        ensures
            code <= 19 <==> result is Some,
            result matches Some(r) ==> r.spec_code() == code,
    {
        match code {
            0 => Some(FResult::FOk),
            1 => Some(FResult::FDiskErr),
            2 => Some(FResult::FIntErr),
            3 => Some(FResult::FNotReady),
            4 => Some(FResult::FNoFile),
            5 => Some(FResult::FNoPath),
            6 => Some(FResult::FInvalidName),
            7 => Some(FResult::FDenied),
            8 => Some(FResult::FExist),
            9 => Some(FResult::FInvalidObject),
            10 => Some(FResult::FWriteProtected),
            11 => Some(FResult::FInvalidDrive),
            12 => Some(FResult::FNotEnabled),
            13 => Some(FResult::FNoFilesystem),
            14 => Some(FResult::FMfksAborted),
            15 => Some(FResult::FTimeOut),
            16 => Some(FResult::FLocked),
            17 => Some(FResult::FNotEnoughCore),
            18 => Some(FResult::FTooManyOpenFiles),
            19 => Some(FResult::FInvalidParameter),
            _ => None,
        }
    }

    /// What an operation that hands nothing back returns for this result:
    /// success for `FOk`, the result itself as the error for every other.
    pub fn ok(self) -> (outcome: Result<(), FResult>)
        ensures
            outcome == if self == FResult::FOk {
                Ok::<(), FResult>(())
            } else {
                Err::<(), FResult>(self)
            },
    {
        match self {
            FResult::FOk => Ok(()),
            fresult => Err(fresult),
        }
    }

    /// What a read or a write returns for this result and the number of
    /// bytes `moved` that the filesystem module reported: that number for
    /// `FOk`, the result itself as the error for every other.
    pub fn count(self, moved: u32) -> (outcome: Result<usize, FResult>)
        ensures
            outcome == if self == FResult::FOk {
                Ok::<usize, FResult>(moved as usize)
            } else {
                Err::<usize, FResult>(self)
            },
    {
        match self {
            FResult::FOk => Ok(moved as usize),
            fresult => Err(fresult),
        }
    }

    /// Every result is found again by its number.
    pub proof fn lemma_code_round_trip(self)
        ensures
            self.spec_code() <= 19,
            forall|other: FResult| other.spec_code() == self.spec_code() ==> other == self,
    {
    }
}

} // verus!
