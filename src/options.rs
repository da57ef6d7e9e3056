use vstd::prelude::*;

verus! {

/// Options of FIFO compaction.
#[derive(Debug, Clone, Copy, PartialEq, Eq, Structural)]
pub struct CompactionOptionsFIFO {
    /// Once the total size of table files reaches this, the oldest table file is deleted.
    pub max_table_files_size: u64,
    /// Whether smaller files may be compacted into larger ones.
    pub allow_compaction: bool,
    /// When not 0, data older than this is soon moved to warm temperature.
    pub age_for_warm: u64,
}

/// Default size limit of FIFO compaction: one gibibyte.
pub const DEFAULT_MAX_TABLE_FILES_SIZE: u64 = 1024 * 1024 * 1024;

pub fn new_compaction_options_fifo() -> (r: CompactionOptionsFIFO)
    ensures
        r.max_table_files_size == DEFAULT_MAX_TABLE_FILES_SIZE,
        !r.allow_compaction,
        r.age_for_warm == 0,
{
    CompactionOptionsFIFO {
        max_table_files_size: DEFAULT_MAX_TABLE_FILES_SIZE,
        allow_compaction: false,
        age_for_warm: 0,
    }
}

pub fn new_configurable_compaction_options_fifo(
    max_table_files_size: u64,
    allow_compaction: bool,
) -> (r: CompactionOptionsFIFO)
    ensures
        r.max_table_files_size == max_table_files_size,
        r.allow_compaction == allow_compaction,
        r.age_for_warm == 0,
{
    let mut compaction_options_fifo = new_compaction_options_fifo();
    compaction_options_fifo.max_table_files_size = max_table_files_size;
    compaction_options_fifo.allow_compaction = allow_compaction;
    compaction_options_fifo
}

/// How universal compaction decides when to stop picking files.
#[derive(Debug, Clone, Copy, PartialEq, Eq, Structural)]
pub enum CompactionStopStyle {
    /// Pick files of similar size.
    SimilarSize,
    /// Pick files while their total size stays small enough.
    TotalSize,
}

/// Options of universal compaction.
#[derive(Debug, Clone, Copy, PartialEq, Eq, Structural)]
pub struct CompactionOptionsUniversal {
    /// Percentage of flexibility when comparing file sizes.
    pub size_ratio: u32,
    /// Minimum number of files in a single compaction run.
    pub min_merge_width: u32,
    /// Maximum number of files in a single compaction run.
    pub max_merge_width: u32,
    /// Size amplification, in percent, above which a full compaction is run.
    pub max_size_amplification_percent: u32,
    /// Percentage of data to keep compressed; -1 compresses everything.
    pub compression_size_percent: i32,
    pub stop_style: CompactionStopStyle,
    /// Whether files without overlap may be moved to the next level as they are.
    pub allow_trivial_move: bool,
    /// Whether compactions are picked incrementally.
    pub incremental: bool,
}

impl CompactionOptionsUniversal {
    /// The default universal compaction options.
    pub open spec fn new_spec() -> CompactionOptionsUniversal {
        CompactionOptionsUniversal {
            size_ratio: 1,
            min_merge_width: 2,
            max_merge_width: 0xffff_ffffu32,
            max_size_amplification_percent: 200,
            compression_size_percent: -1i32,
            stop_style: CompactionStopStyle::TotalSize,
            allow_trivial_move: false,
            incremental: false,
        }
    }

    pub fn new() -> (r: CompactionOptionsUniversal)
        ensures
            r == CompactionOptionsUniversal::new_spec(),
    {
        CompactionOptionsUniversal {
            size_ratio: 1,
            min_merge_width: 2,
            max_merge_width: u32::MAX,
            max_size_amplification_percent: 200,
            compression_size_percent: -1,
            stop_style: CompactionStopStyle::TotalSize,
            allow_trivial_move: false,
            incremental: false,
        }
    }
}

pub fn new_compaction_options_universal() -> (r: CompactionOptionsUniversal)
    ensures
        r == CompactionOptionsUniversal::new_spec(),
{
    CompactionOptionsUniversal::new()
}

/// Options of a request for the live files of a database.
#[derive(Debug, Clone, Copy, PartialEq, Eq, Structural)]
pub struct LiveFilesStorageInfoOptions {
    /// Whether to fill in file checksum information.
    pub include_checksum_info: bool,
    /// Memtables are flushed when the live write-ahead log files reach this many
    /// bytes; 0 always flushes.
    pub wal_size_for_flush: u64,
}

impl LiveFilesStorageInfoOptions {
    pub fn new() -> (r: LiveFilesStorageInfoOptions)
        ensures
            !r.include_checksum_info,
            r.wal_size_for_flush == 0,
    {
        LiveFilesStorageInfoOptions { include_checksum_info: false, wal_size_for_flush: 0 }
    }
}

pub fn new_live_files_storage_info_options() -> (r: LiveFilesStorageInfoOptions)
    ensures
        !r.include_checksum_info,
        r.wal_size_for_flush == 0,
{
    LiveFilesStorageInfoOptions::new()
}

} // verus!
