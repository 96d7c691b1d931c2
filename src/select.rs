//! Resolving a configuration into one of the six codec operations.
use flate2::Compression;
use vstd::prelude::*;

use crate::codec::{compressed, decompressed, Mode, MAX_LEVEL};

verus! {

/// The lowest effort level a caller may ask for.
pub const MIN_LEVEL: u32 = 1;

/// The effort level used when none is given.
pub const DEFAULT_LEVEL: u32 = 6;

/// Relies on `flate2::Compression::default`, whose level is 6.
#[verifier::external_body]
fn default_level() -> (r: u32)
    ensures
        r == DEFAULT_LEVEL,
{
    Compression::default().level()
}

/// Compress at an effort level, or decompress.
#[derive(Debug, Clone, Copy, PartialEq, Eq, Structural)]
pub enum Operation {
    Compress(u32),
    Decompress,
}

/// A format together with the operation to run in it.
#[derive(Debug, Clone, Copy, PartialEq, Eq, Structural)]
pub struct Transform {
    pub mode: Mode,
    pub op: Operation,
}

/// A contradictory configuration, found before any input or output is touched.
#[derive(Debug, Clone, Copy, PartialEq, Eq, Structural)]
pub enum ConfigError {
    /// More than one effort level was given.
    MultipleLevels,
    /// An effort level was given together with decompression.
    LevelWithDecompress,
    /// The effort level given lies outside `MIN_LEVEL..=MAX_LEVEL`.
    LevelOutOfRange(u32),
}

impl Transform {
    /// A compressing transform carries a level in `MIN_LEVEL..=MAX_LEVEL`.
    pub open spec fn wf(self) -> bool {
        self.op matches Operation::Compress(level) ==> MIN_LEVEL <= level <= MAX_LEVEL
    }

    /// What applying this transform to `data` yields, `None` where the codec fails.
    pub open spec fn output(self, data: Seq<u8>) -> Option<Seq<u8>> {
        match self.op {
            Operation::Compress(level) => compressed(self.mode, level, data),
            Operation::Decompress => decompressed(self.mode, data),
        }
    }

    /// Runs the codec operation of this transform on one whole input.
    pub fn apply(&self, input: &[u8]) -> (r: Result<Vec<u8>, String>)
        requires
            self.wf(),
        ensures
            match r {
                Ok(v) => self.output(input@) == Some(v@),
                Err(_) => self.output(input@) is None,
            },
    {
        match self.op {
            Operation::Compress(level) => self.mode.compress(level, input),
            Operation::Decompress => self.mode.decompress(input),
        }
    }
}

/// The transform that a configuration selects: `levels` holds every effort
/// level given, in the order given.
pub open spec fn selected(mode: Mode, decompress: bool, levels: Seq<u32>) -> Result<
    Transform,
    ConfigError,
> {
    if levels.len() > 1 {
        Err(ConfigError::MultipleLevels)
    } else if levels.len() == 1 && decompress {
        Err(ConfigError::LevelWithDecompress)
    } else if levels.len() == 1 && !(MIN_LEVEL <= levels[0] <= MAX_LEVEL) {
        Err(ConfigError::LevelOutOfRange(levels[0]))
    } else if decompress {
        Ok(Transform { mode, op: Operation::Decompress })
    } else if levels.len() == 0 {
        Ok(Transform { mode, op: Operation::Compress(DEFAULT_LEVEL) })
    } else {
        Ok(Transform { mode, op: Operation::Compress(levels[0]) })
    }
}

/// Selects the transform for `mode`, the direction, and the effort levels
/// given (each level flag or level option that was set adds one entry).
///
/// At most one level may be given, only when compressing, and it must lie
/// in `MIN_LEVEL..=MAX_LEVEL`; with none, compression uses `DEFAULT_LEVEL`.
pub fn select(mode: Mode, decompress: bool, levels: &[u32]) -> (r: Result<Transform, ConfigError>)
    ensures
        r == selected(mode, decompress, levels@),
        r matches Ok(t) ==> t.wf(),
{
    if levels.len() > 1 {
        Err(ConfigError::MultipleLevels)
    } else if levels.len() == 1 {
        let level = levels[0];
        if decompress {
            Err(ConfigError::LevelWithDecompress)
        } else if level < MIN_LEVEL || level > MAX_LEVEL {
            Err(ConfigError::LevelOutOfRange(level))
        } else {
            Ok(Transform { mode, op: Operation::Compress(level) })
        }
    } else if decompress {
        Ok(Transform { mode, op: Operation::Decompress })
    } else {
        Ok(Transform { mode, op: Operation::Compress(default_level()) })
    }
}

/// Two or more effort levels given at once are a configuration error,
/// whatever the levels, the format or the direction.
pub proof fn lemma_levels_exclusive(mode: Mode, decompress: bool, levels: Seq<u32>)
    requires
        levels.len() >= 2,
    ensures
        selected(mode, decompress, levels) == Err::<Transform, ConfigError>(
            ConfigError::MultipleLevels,
        ),
{
}

/// Compressing with no level given is compressing with `DEFAULT_LEVEL`
/// given: the same transform, hence the same bytes out for every input.
pub proof fn lemma_default_level(mode: Mode, data: Seq<u8>)
    ensures
        selected(mode, false, seq![]) == selected(mode, false, seq![DEFAULT_LEVEL]),
        selected(mode, false, seq![]) matches Ok(t) && t.output(data) == compressed(
            mode,
            DEFAULT_LEVEL,
            data,
        ),
{
}

} // verus!
