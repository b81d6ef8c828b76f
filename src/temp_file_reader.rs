use vstd::prelude::*;

verus! {

/// Why a filesystem operation failed.
#[derive(Clone, Copy, Debug, PartialEq, Eq, Structural)]
pub enum IoCause {
    /// The path does not exist.
    NotFound,
    /// Any other failure (permissions, a device error, ...).
    Other,
}

/// Why a response could not be built.
#[derive(Clone, Copy, Debug, PartialEq, Eq, Structural)]
pub enum BuildError {
    /// The file does not exist.
    NotFound,
    /// The path exists but is not a regular file.
    InvalidInput,
    /// Any other metadata, open or read failure.
    IoFailure,
}

/// The build error that a failed filesystem operation turns into.
pub open spec fn error_for(cause: IoCause) -> BuildError {
    match cause {
        IoCause::NotFound => BuildError::NotFound,
        IoCause::Other => BuildError::IoFailure,
    }
}

impl BuildError {
    /// The build error for a failed filesystem operation.
    pub fn from_cause(cause: IoCause) -> (r: BuildError)
        ensures
            r == error_for(cause),
    {
        match cause {
            IoCause::NotFound => BuildError::NotFound,
            IoCause::Other => BuildError::IoFailure,
        }
    }
}

/// Where an upload keeps its bytes: fully in memory, or in a temporary file
/// with the outcome of opening it.
pub enum UploadStorage<'v, S> {
    Buffered(&'v [u8]),
    OnDisk { path: String, opened: Result<S, IoCause> },
}

/// One stream over an upload, whichever storage it has: reads come from
/// memory behind a cursor, or from the opened file handle.
pub enum TempFileReader<'v, S> {
    File { file: S },
    Buffered { content: &'v [u8], pos: usize },
}

impl<'v, S> TempFileReader<'v, S> {
    /// The cursor stays within the buffered bytes.
    pub open spec fn wf(&self) -> bool {
        match self {
            TempFileReader::Buffered { content, pos } => *pos <= content@.len(),
            TempFileReader::File { .. } => true,
        }
    }

    /// Whether this reader streams `storage`: from the start of the buffered
    /// bytes, or from the file that was opened for it.
    pub open spec fn streams(&self, storage: UploadStorage<'v, S>) -> bool {
        match storage {
            UploadStorage::Buffered(c) => self matches TempFileReader::Buffered { content, pos }
                && content@ == c@ && pos == 0,
            UploadStorage::OnDisk { opened, .. } => opened matches Ok(f)
                && self matches TempFileReader::File { file } && file == f,
        }
    }

    /// Opens a reader over an upload; fails when its temporary file could
    /// not be opened.
    pub fn from(storage: UploadStorage<'v, S>) -> (r: Result<Self, BuildError>)
        ensures
            match storage {
                UploadStorage::OnDisk { opened: Err(cause), .. } => r == Err::<Self, BuildError>(
                    error_for(cause),
                ),
                _ => r matches Ok(reader) && reader.wf() && reader.streams(storage),
            },
    {
        match storage {
            UploadStorage::Buffered(content) => Ok(TempFileReader::Buffered { content, pos: 0 }),
            UploadStorage::OnDisk { opened, .. } => match opened {
                Ok(file) => Ok(TempFileReader::File { file }),
                Err(cause) => Err(BuildError::from_cause(cause)),
            },
        }
    }

    /// Moves up to `capacity` buffered bytes onto `dst` and advances the
    /// cursor past them; returns how many moved, 0 once the end is reached.
    pub fn read_buffered(&mut self, dst: &mut Vec<u8>, capacity: usize) -> (n: usize)
        requires
            *old(self) is Buffered,
            old(self).wf(),
        ensures
            final(self).wf(),
            match *old(self) {
                TempFileReader::Buffered { content, pos } => {
                    &&& n == if capacity <= content@.len() - pos {
                        capacity as int
                    } else {
                        content@.len() - pos
                    }
                    &&& *final(self) matches TempFileReader::Buffered { content: c2, pos: p2 }
                        && c2@ == content@ && p2 == pos + n
                    &&& final(dst)@ == old(dst)@ + content@.subrange(pos as int, pos + n)
                },
                TempFileReader::File { .. } => false,
            },
    {
        match *self {
            TempFileReader::Buffered { content, pos } => {
                let left = content.len() - pos;
                let n = if capacity <= left {
                    capacity
                } else {
                    left
                };
                let ghost start = dst@;
                let mut i: usize = 0;
                while i < n
                    invariant
                        i <= n,
                        pos + n <= content@.len(),
                        content@.len() <= usize::MAX,
                        dst@ == start + content@.subrange(pos as int, pos + i),
                    decreases n - i,
                {
                    dst.push(content[pos + i]);
                    i = i + 1;
                    assert(dst@ =~= start + content@.subrange(pos as int, pos + i));
                }
                *self = TempFileReader::Buffered { content, pos: pos + n };
                n
            },
            TempFileReader::File { .. } => 0,
        }
    }
}

} // verus!
