use vstd::prelude::*;

verus! {

/// Name of the tag file, placed directly inside the tagged directory.
pub const TAG_FILE_NAME: &'static str = "CACHEDIR.TAG";

/// The 43 bytes a tag file must start with and consist of:
/// `Signature: 8a477f597d28d172789f06886806bc55`, with no trailing newline.
pub open spec fn tag_header() -> Seq<u8> {
    seq![
        83u8, 105, 103, 110, 97, 116, 117, 114, 101, 58, 32,
        56, 97, 52, 55, 55, 102, 53, 57, 55, 100, 50, 56, 100, 49, 55, 50,
        55, 56, 57, 102, 48, 54, 56, 56, 54, 56, 48, 54, 98, 99, 53, 53,
    ]
}

/// The tag header as bytes, ready to be written into a tag file.
pub fn header() -> (r: Vec<u8>)
    ensures
        r@ == tag_header(),
{
    let r: Vec<u8> = vec![
        83u8, 105, 103, 110, 97, 116, 117, 114, 101, 58, 32,
        56, 97, 52, 55, 55, 102, 53, 57, 55, 100, 50, 56, 100, 49, 55, 50,
        55, 56, 57, 102, 48, 54, 56, 56, 54, 56, 48, 54, 98, 99, 53, 53,
    ];
    assert(r@ =~= tag_header());
    r
}

/// Whether `bytes`, the result of reading a tag file, is exactly the header.
/// A short read, an empty file or any differing byte does not match.
pub fn header_matches(bytes: &[u8]) -> (r: bool)
    ensures
        r == (bytes@ == tag_header()),
{
    let expected = header();
    if bytes.len() != expected.len() {
        return false;
    }
    let mut i: usize = 0;
    while i < bytes.len()
        invariant
            bytes@.len() == expected@.len(),
            expected@ == tag_header(),
            i <= bytes@.len(),
            bytes@.subrange(0, i as int) == expected@.subrange(0, i as int),
        decreases bytes@.len() - i,
    {
        if bytes[i] != expected[i] {
            assert(bytes@[i as int] != tag_header()[i as int]);
            return false;
        }
        assert(bytes@.subrange(0, i + 1) =~= bytes@.subrange(0, i as int).push(bytes@[i as int]));
        assert(expected@.subrange(0, i + 1) =~= expected@.subrange(0, i as int).push(expected@[i as int]));
        i = i + 1;
    }
    assert(bytes@ =~= bytes@.subrange(0, bytes@.len() as int));
    assert(expected@ =~= expected@.subrange(0, expected@.len() as int));
    true
}

/// How a directory stands with respect to its tag file.
#[derive(Clone, Copy, Debug, PartialEq, Eq, Structural)]
pub enum TagState {
    /// The tag file does not exist.
    Absent,
    /// The tag file exists but does not hold exactly the header.
    WrongHeader,
    /// The tag file exists and holds exactly the header.
    Present,
}

/// The classes of filesystem failure the library tells apart.
#[derive(Clone, Copy, Debug, PartialEq, Eq, Structural)]
pub enum ErrorKind {
    /// A path component is missing.
    NotFound,
    /// The entry to be created is already there.
    AlreadyExists,
    /// The operation was not permitted.
    PermissionDenied,
    /// Any other failure.
    Other,
}

/// A failed filesystem call: the class the decisions look at, and the
/// caller's own error value, which is handed back unchanged.
pub struct Failure<E> {
    pub kind: ErrorKind,
    pub error: E,
}

/// What was observed when probing a directory for its tag file.
pub enum TagProbe<E> {
    /// The tag file opened, and its first read (of at most the header's
    /// length) returned these bytes.
    Read(Vec<u8>),
    /// The tag file opened, but reading it failed.
    ReadFailed(E),
    /// Opening the tag file failed. `directory_is_dir` tells whether the
    /// probed path is an existing directory; it is consulted only when the
    /// failure is of kind `NotFound`.
    OpenFailed { failure: Failure<E>, directory_is_dir: bool },
}

/// The tag state a probe observation stands for. A missing tag file means
/// `Absent` only when the directory itself is there; otherwise, as for every
/// other failure, the error is the result.
pub open spec fn probe_state<E>(probe: TagProbe<E>) -> Result<TagState, E> {
    match probe {
        TagProbe::Read(bytes) => Ok(
            if bytes@ == tag_header() {
                TagState::Present
            } else {
                TagState::WrongHeader
            },
        ),
        TagProbe::ReadFailed(e) => Err(e),
        TagProbe::OpenFailed { failure, directory_is_dir } => if failure.kind == ErrorKind::NotFound
            && directory_is_dir {
            Ok(TagState::Absent)
        } else {
            Err(failure.error)
        },
    }
}

/// Whether a probe observation means the directory is tagged.
pub open spec fn probe_tagged<E>(probe: TagProbe<E>) -> Result<bool, E> {
    match probe_state(probe) {
        Ok(state) => Ok(state == TagState::Present),
        Err(e) => Err(e),
    }
}

/// Classifies the tag state of a directory from a probe observation.
pub fn get_tag_state<E>(probe: TagProbe<E>) -> (r: Result<TagState, E>)
    ensures
        r == probe_state(probe),
{
    match probe {
        TagProbe::Read(bytes) => {
            if header_matches(bytes.as_slice()) {
                Ok(TagState::Present)
            } else {
                Ok(TagState::WrongHeader)
            }
        },
        TagProbe::ReadFailed(e) => Err(e),
        TagProbe::OpenFailed { failure, directory_is_dir } => {
            if failure.kind == ErrorKind::NotFound && directory_is_dir {
                Ok(TagState::Absent)
            } else {
                Err(failure.error)
            }
        },
    }
}

/// Whether the probed directory is tagged: `true` exactly when its state is
/// `Present`; errors pass through.
pub fn is_tagged<E>(probe: TagProbe<E>) -> (r: Result<bool, E>)
    ensures
        r == probe_tagged(probe),
{
    match get_tag_state(probe) {
        Ok(state) => Ok(state == TagState::Present),
        Err(e) => Err(e),
    }
}

/// The outcome of ensuring a tag, given the outcome of adding it.
pub open spec fn ensure_outcome<E>(added: Result<(), Failure<E>>) -> Result<(), E> {
    match added {
        Ok(()) => Ok(()),
        Err(f) => if f.kind == ErrorKind::AlreadyExists {
            Ok(())
        } else {
            Err(f.error)
        },
    }
}

/// Decides the outcome of ensuring a tag, given the outcome of adding it:
/// a tag file that is already there counts as success, whatever it holds;
/// every other failure is handed back.
pub fn ensure_tag<E>(added: Result<(), Failure<E>>) -> (r: Result<(), E>)
    ensures
        r == ensure_outcome(added),
{
    match added {
        Ok(()) => Ok(()),
        Err(f) => {
            if f.kind == ErrorKind::AlreadyExists {
                Ok(())
            } else {
                Err(f.error)
            }
        },
    }
}

} // verus!
