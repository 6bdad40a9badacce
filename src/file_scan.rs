use vstd::prelude::*;

verus! {

/// Capabilities of a scan format that the planner takes into account.
#[derive(Clone, Copy, Debug, PartialEq, Eq, Structural)]
pub struct ScanFlags {
    pub bits: u32,
}

/// The bit set when the format applies predicate filters itself.
pub const SPECIALIZED_PREDICATE_FILTER_BIT: u32 = 1;

impl ScanFlags {
    pub fn empty() -> (r: ScanFlags)
        ensures
            r.bits == 0,
    {
        ScanFlags { bits: 0 }
    }

    /// The format can apply predicate filters itself, instead of a generic
    /// filter step after reading.
    pub fn specialized_predicate_filter() -> (r: ScanFlags)
        ensures
            r.bits == SPECIALIZED_PREDICATE_FILTER_BIT,
    {
        ScanFlags { bits: SPECIALIZED_PREDICATE_FILTER_BIT }
    }

    /// Whether every bit of `other` is set in `self`.
    pub fn contains(&self, other: ScanFlags) -> (r: bool)
        ensures
            r == (self.bits & other.bits == other.bits),
    {
        self.bits & other.bits == other.bits
    }
}

/// The physical format that a source scans, with the parts of its
/// configuration that the planner reads.
#[derive(Clone, Copy, Debug)]
pub enum FileScan {
    Csv,
    NDJson,
    /// `metadata_cached`: a file metadata blob read earlier is attached.
    Parquet { metadata_cached: bool },
    Ipc { metadata_cached: bool },
    /// A scan supplied by the user.
    Anonymous,
}

/// Two scan descriptors denote the same scan: the same built-in format, with
/// cached metadata ignored. A user-supplied scan equals no descriptor.
pub open spec fn same_scan(a: FileScan, b: FileScan) -> bool {
    match (a, b) {
        (FileScan::Csv, FileScan::Csv) => true,
        (FileScan::NDJson, FileScan::NDJson) => true,
        (FileScan::Parquet { .. }, FileScan::Parquet { .. }) => true,
        (FileScan::Ipc { .. }, FileScan::Ipc { .. }) => true,
        _ => false,
    }
}

impl PartialEq for FileScan {
    fn eq(&self, other: &FileScan) -> (r: bool)
        ensures
            r == same_scan(*self, *other),
    {
        match (self, other) {
            (FileScan::Csv, FileScan::Csv) => true,
            (FileScan::NDJson, FileScan::NDJson) => true,
            (FileScan::Parquet { .. }, FileScan::Parquet { .. }) => true,
            (FileScan::Ipc { .. }, FileScan::Ipc { .. }) => true,
            _ => false,
        }
    }
}

impl vstd::std_specs::cmp::PartialEqSpecImpl for FileScan {
    open spec fn obeys_eq_spec() -> bool {
        true
    }

    open spec fn eq_spec(&self, other: &FileScan) -> bool {
        same_scan(*self, *other)
    }
}

impl FileScan {
    /// The capability flags of the format: only Parquet filters predicates
    /// itself.
    pub fn flags(&self) -> (r: ScanFlags)
        ensures
            r.bits == (if *self is Parquet { SPECIALIZED_PREDICATE_FILTER_BIT } else { 0 }),
    {
        match self {
            FileScan::Parquet { .. } => ScanFlags::specialized_predicate_filter(),
            _ => ScanFlags::empty(),
        }
    }

    /// Whether rows must be re-sorted after reading to honour the requested
    /// order: always for CSV, for IPC when a row index is requested.
    pub fn sort_projection(&self, has_row_index: bool) -> (r: bool)
        ensures
            r == match *self {
                FileScan::Csv => true,
                FileScan::Ipc { .. } => has_row_index,
                _ => false,
            },
    {
        match self {
            FileScan::Csv => true,
            FileScan::Ipc { .. } => has_row_index,
            _ => false,
        }
    }

    /// Whether the format supports streaming delivery: CSV and Parquet do.
    pub fn streamable(&self) -> (r: bool)
        ensures
            r == (*self is Csv || *self is Parquet),
    {
        match self {
            FileScan::Csv => true,
            FileScan::Parquet { .. } => true,
            _ => false,
        }
    }

    /// Drop the cached file metadata of a columnar format.
    pub fn remove_metadata(&mut self)
        ensures
            *final(self) == match *old(self) {
                FileScan::Parquet { .. } => FileScan::Parquet { metadata_cached: false },
                FileScan::Ipc { .. } => FileScan::Ipc { metadata_cached: false },
                other => other,
            },
    {
        match self {
            FileScan::Parquet { .. } => {
                *self = FileScan::Parquet { metadata_cached: false };
            },
            FileScan::Ipc { .. } => {
                *self = FileScan::Ipc { metadata_cached: false };
            },
            _ => {},
        }
    }

    /// The name of the format.
    pub fn kind_name(&self) -> (r: &'static str)
        ensures
            r@ == match *self {
                FileScan::Csv => "Csv"@,
                FileScan::NDJson => "NDJson"@,
                FileScan::Parquet { .. } => "Parquet"@,
                FileScan::Ipc { .. } => "Ipc"@,
                FileScan::Anonymous => "Anonymous"@,
            },
    {
        match self {
            FileScan::Csv => "Csv",
            FileScan::NDJson => "NDJson",
            FileScan::Parquet { .. } => "Parquet",
            FileScan::Ipc { .. } => "Ipc",
            FileScan::Anonymous => "Anonymous",
        }
    }
}

} // verus!
