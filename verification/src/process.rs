//! The identity of a process, put together from what the host reports about
//! it, and the short hash of its executable.

use vstd::prelude::*;
use crate::flow::{
    copy_opt_text, is_lower_hex, is_short_hash, opt_process, opt_text, ProcessIdentity,
    ProcessIdentityView,
};
use crate::text::{chars_of, string_of, tail_run_len, trailing_run, slice_of, CharSet};

verus! {

/// The SHA-256 digest of a message as `ring` computes it.
pub uninterp spec fn ring_sha256(data: Seq<u8>) -> Seq<u8>;

/// The SHA-256 digest of a message as `sha2` computes it.
pub uninterp spec fn sha2_sha256(data: Seq<u8>) -> Seq<u8>;

/// `ring::digest::digest` with `SHA256`: the 32-byte digest of `data`. `ring`
/// takes messages whose length in bits fits in 64 bits.
#[verifier::external_body]
fn digest_with_ring(data: &[u8]) -> (r: Vec<u8>)
    requires
        data@.len() < 0x2000_0000_0000_0000,
    ensures
        r@ == ring_sha256(data@),
        r@.len() == 32,
{
    ring::digest::digest(&ring::digest::SHA256, data).as_ref().to_vec()
}

/// `sha2::Sha256::digest`: the 32-byte digest of `data`.
#[verifier::external_body]
fn digest_with_sha2(data: &[u8]) -> (r: Vec<u8>)
    ensures
        r@ == sha2_sha256(data@),
        r@.len() == 32,
{
    <sha2::Sha256 as sha2::Digest>::digest(data).to_vec()
}

/// The lower-case hexadecimal digit of a value below sixteen.
pub open spec fn hex_char(n: int) -> char {
    if n < 10 {
        (48 + n) as char
    } else {
        (87 + n) as char
    }
}

/// The lower-case hexadecimal text of a byte string.
pub open spec fn hex_lower(bytes: Seq<u8>) -> Seq<char> {
    Seq::new(
        2 * bytes.len(),
        |i: int|
            hex_char(
                if i % 2 == 0 {
                    bytes[i / 2] as int / 16
                } else {
                    bytes[i / 2] as int % 16
                },
            ),
    )
}

/// Executable [`hex_char`].
pub fn hex_digit(n: u8) -> (c: char)
    requires
        n < 16,
    ensures
        c == hex_char(n as int),
{
    if n < 10 {
        (48 + n) as char
    } else {
        (87 + n) as char
    }
}

/// Executable [`hex_lower`]: two lower-case hexadecimal digits for each byte,
/// the high half of the byte first.
pub fn hex_encode(bytes: &[u8]) -> (r: String)
    ensures
        r@ == hex_lower(bytes@),
{
    let mut out = String::new();
    let mut i: usize = 0;
    assert(out@ =~= hex_lower(bytes@.take(0)));
    while i < bytes.len()
        invariant
            i <= bytes.len(),
            out@ == hex_lower(bytes@.take(i as int)),
        decreases bytes.len() - i,
    {
        let b = bytes[i];
        let ghost before = hex_lower(bytes@.take(i as int));
        out.push(hex_digit(b / 16));
        out.push(hex_digit(b % 16));
        proof {
            let next = hex_lower(bytes@.take(i + 1));
            assert(next.len() == before.len() + 2);
            assert forall|k: int| 0 <= k < next.len() implies next[k] == #[trigger] out@[k] by {
                if k < 2 * i {
                    assert(bytes@.take(i + 1)[k / 2] == bytes@.take(i as int)[k / 2]);
                    assert(out@[k] == before[k]);
                } else {
                    assert(k / 2 == i);
                    assert(bytes@.take(i + 1)[k / 2] == b);
                }
            }
            assert(out@ =~= next);
        }
        i = i + 1;
    }
    assert(bytes@.take(bytes.len() as int) == bytes@);
    out
}

/// The hexadecimal text of eight bytes is a short hash.
pub proof fn lemma_hex_of_eight_bytes(bytes: Seq<u8>)
    requires
        bytes.len() == 8,
    ensures
        is_short_hash(hex_lower(bytes)),
{
    assert forall|i: int| 0 <= i < 16 implies is_lower_hex(#[trigger] hex_lower(bytes)[i]) by {
        let n = if i % 2 == 0 {
            bytes[i / 2] as int / 16
        } else {
            bytes[i / 2] as int % 16
        };
        assert(0 <= n < 16);
        assert(hex_lower(bytes)[i] == hex_char(n));
    }
}

/// The first eight bytes of a digest, as sixteen hexadecimal digits.
pub open spec fn short_hash(digest: Seq<u8>) -> Seq<char> {
    hex_lower(digest.take(8))
}

/// The hexadecimal text of the first eight bytes of a digest.
pub fn short_hash_of(digest: &Vec<u8>) -> (r: String)
    requires
        digest@.len() >= 8,
    ensures
        r@ == short_hash(digest@),
        is_short_hash(r@),
{
    let head = vstd::slice::slice_subrange(digest.as_slice(), 0, 8);
    assert(head@ == digest@.take(8));
    proof {
        lemma_hex_of_eight_bytes(head@);
    }
    hex_encode(head)
}

/// The short hash of an executable's content: the first sixteen hexadecimal
/// digits of its SHA-256 digest, computed with `ring`. A content too long to
/// be hashed has none.
pub fn compute_sha256_16(content: &[u8]) -> (r: Option<String>)
    ensures
        r is Some == (content@.len() < 0x2000_0000_0000_0000),
        r matches Some(h) ==> h@ == short_hash(ring_sha256(content@)) && is_short_hash(h@),
{
    if content.len() as u128 >= 0x2000_0000_0000_0000u128 {
        return None;
    }
    let digest = digest_with_ring(content);
    Some(short_hash_of(&digest))
}

/// The short hash of an executable's content, computed with `sha2`.
pub fn calculate_sha256_prefix(content: &[u8]) -> (r: String)
    ensures
        r@ == short_hash(sha2_sha256(content@)),
        is_short_hash(r@),
{
    let digest = digest_with_sha2(content);
    short_hash_of(&digest)
}

/// What the host reports about a process.
#[derive(Debug)]
pub struct ProcessProbe {
    /// The name in the process table.
    pub name: Option<String>,
    /// The full path of the executable.
    pub exe_path: Option<String>,
    /// The content of the executable, where it could be read.
    pub exe_content: Option<Vec<u8>>,
    /// The owner of the process.
    pub user: Option<String>,
    /// Whether the executable carries version information.
    pub has_version_info: bool,
    /// The parent process.
    pub ppid: Option<i32>,
}

/// The identity that a probe gives to a process: what the host reported, the
/// short hash of the executable where its path and content are known, and the
/// signature verdict where its path is known.
pub open spec fn identity_of(pid: i32, probe: ProcessProbe) -> ProcessIdentityView {
    ProcessIdentityView {
        pid,
        ppid: probe.ppid,
        name: opt_text(probe.name),
        exe_path: opt_text(probe.exe_path),
        sha256_16: match (probe.exe_path, probe.exe_content) {
            (Some(_), Some(content)) => Some(short_hash(sha2_sha256(content@))),
            _ => None,
        },
        user: opt_text(probe.user),
        signed: match probe.exe_path {
            Some(_) => Some(probe.has_version_info),
            None => None,
        },
    }
}

/// The identities of the probed processes that have a positive id, in order.
pub open spec fn identities_of(probes: Seq<(i32, ProcessProbe)>) -> Seq<ProcessIdentityView>
    decreases probes.len(),
{
    if probes.len() == 0 {
        Seq::empty()
    } else {
        let earlier = identities_of(probes.drop_last());
        if probes.last().0 > 0 {
            earlier.push(identity_of(probes.last().0, probes.last().1))
        } else {
            earlier
        }
    }
}

/// The views of a sequence of identities.
pub open spec fn identity_views(v: Seq<ProcessIdentity>) -> Seq<ProcessIdentityView> {
    v.map_values(|p: ProcessIdentity| p@)
}

/// Builds process identities from probes.
pub struct ProcessInfoCollector;

impl ProcessInfoCollector {
    /// The identity of the process `pid`, which must be positive, as the probe
    /// reports it.
    pub fn get_process_info(pid: i32, probe: &ProcessProbe) -> (r: Option<ProcessIdentity>)
        ensures
            r is Some == (pid > 0),
            r matches Some(p) ==> p@ == identity_of(pid, *probe) && p.wf(),
    {
        if pid <= 0 {
            return None;
        }
        let sha256_16 = match (&probe.exe_path, &probe.exe_content) {
            (Some(_), Some(content)) => Some(calculate_sha256_prefix(content.as_slice())),
            _ => None,
        };
        let signed = match &probe.exe_path {
            Some(_) => Some(probe.has_version_info),
            None => None,
        };
        Some(
            ProcessIdentity {
                pid,
                ppid: probe.ppid,
                name: copy_opt_text(&probe.name),
                exe_path: copy_opt_text(&probe.exe_path),
                sha256_16,
                user: copy_opt_text(&probe.user),
                signed,
            },
        )
    }

    /// The identities of all probed processes.
    pub fn list_processes(probes: &Vec<(i32, ProcessProbe)>) -> (r: Vec<ProcessIdentity>)
        ensures
            identity_views(r@) == identities_of(probes@),
            forall|i: int| 0 <= i < r@.len() ==> (#[trigger] r@[i]).wf(),
    {
        let mut out: Vec<ProcessIdentity> = Vec::new();
        let mut i: usize = 0;
        assert(identity_views(out@) =~= Seq::<ProcessIdentityView>::empty());
        while i < probes.len()
            invariant
                i <= probes.len(),
                identity_views(out@) == identities_of(probes@.take(i as int)),
                forall|k: int| 0 <= k < out@.len() ==> (#[trigger] out@[k]).wf(),
            decreases probes.len() - i,
        {
            assert(probes@.take(i + 1).drop_last() == probes@.take(i as int));
            assert(probes@.take(i + 1).last() == probes@[i as int]);
            let ghost before = identity_views(out@);
            match Self::get_process_info(probes[i].0, &probes[i].1) {
                Some(info) => {
                    out.push(info);
                    assert(identity_views(out@) =~= before.push(info@));
                },
                None => {},
            }
            i = i + 1;
        }
        assert(probes@.take(probes.len() as int) == probes@);
        out
    }
}

/// What the host reports about the image of a process that was found through
/// a socket listing.
#[derive(Debug)]
pub enum ImageProbe {
    /// The process could not be opened.
    Unopened,
    /// The process was opened and the path of its image could not be read.
    NoImagePath,
    /// The image of the process.
    Image { exe_path: String, content: Option<Vec<u8>>, user: Option<String>, ppid: Option<i32> },
}

/// The file name at the end of a path: what stands behind the last backslash
/// or slash, if anything does.
pub open spec fn image_name(path: Seq<char>) -> Option<Seq<char>> {
    let n = tail_run_len(path, CharSet::NoneOf('\\', '/'));
    if n == 0 {
        None
    } else {
        Some(path.skip(path.len() - n))
    }
}

/// Executable [`image_name`].
pub fn image_name_of(path: &str) -> (r: Option<String>)
    ensures
        opt_text(r) == image_name(path@),
{
    let v = chars_of(path);
    let n = trailing_run(&v, v.len(), CharSet::NoneOf('\\', '/'));
    assert(v@.take(v.len() as int) == v@);
    if n == 0 {
        None
    } else {
        let name = slice_of(&v, v.len() - n, v.len());
        assert(v@.subrange(v.len() - n, v.len() as int) == v@.skip(v.len() - n));
        Some(string_of(&name))
    }
}

/// The short hash of an optional content, computed with `ring`.
pub open spec fn image_hash(content: Option<Vec<u8>>) -> Option<Seq<char>> {
    match content {
        Some(c) => if c@.len() < 0x2000_0000_0000_0000 {
            Some(short_hash(ring_sha256(c@)))
        } else {
            None
        },
        None => None,
    }
}

/// The identity of a process found through a socket listing. A process that
/// could not be opened is known by its id alone; one whose image path could
/// not be read has no identity; any other is named after its image.
pub open spec fn image_identity(pid: i32, probe: ImageProbe) -> Option<ProcessIdentityView> {
    match probe {
        ImageProbe::Unopened => Some(
            ProcessIdentityView {
                pid,
                ppid: None,
                name: None,
                exe_path: None,
                sha256_16: None,
                user: None,
                signed: None,
            },
        ),
        ImageProbe::NoImagePath => None,
        ImageProbe::Image { exe_path, content, user, ppid } => Some(
            ProcessIdentityView {
                pid,
                ppid,
                name: image_name(exe_path@),
                exe_path: Some(exe_path@),
                sha256_16: image_hash(content),
                user: opt_text(user),
                signed: None,
            },
        ),
    }
}

/// Executable [`image_identity`].
pub fn process_identity(pid: i32, probe: &ImageProbe) -> (r: Option<ProcessIdentity>)
    ensures
        opt_process(r) == image_identity(pid, *probe),
        r matches Some(p) ==> p.wf(),
{
    match probe {
        ImageProbe::Unopened => Some(
            ProcessIdentity {
                pid,
                ppid: None,
                name: None,
                exe_path: None,
                sha256_16: None,
                user: None,
                signed: None,
            },
        ),
        ImageProbe::NoImagePath => None,
        ImageProbe::Image { exe_path, content, user, ppid } => {
            let sha256_16 = match content {
                Some(c) => compute_sha256_16(c.as_slice()),
                None => None,
            };
            Some(
                ProcessIdentity {
                    pid,
                    ppid: *ppid,
                    name: image_name_of(exe_path.as_str()),
                    exe_path: Some(exe_path.clone()),
                    sha256_16,
                    user: copy_opt_text(user),
                    signed: None,
                },
            )
        },
    }
}

} // verus!
