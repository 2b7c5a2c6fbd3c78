//! Naming scheme of the durable pending store.
//!
//! Every finished artifact lands under
//! `<app_data_root>/<kind>_pending/<YYYY-MM-DD>/<kind>_<timestamp>_<unique_id>.<ext>`:
//! one directory per UTC calendar day, never nested further. The
//! extension picks the per-kind retry scanner's filter, and the unique
//! suffix makes file names collision free, so a writer never overwrites
//! an existing artifact and needs no lock against the sweep.
use vstd::prelude::*;
use vstd::slice::slice_index_get;
use vstd::string::{StringExecFns, StringSliceAdditionalSpecFns};

verus! {

/// The kinds of artifact the agent captures and delivers.
#[derive(Clone, Copy, PartialEq, Eq, Structural, Debug)]
pub enum ArtifactKind {
    VideoSegment,
    Screenshot,
    ActivityLog,
}

impl ArtifactKind {
    /// Name of the kind's pending root under the app data root.
    pub open spec fn spec_pending_dir_name(self) -> Seq<char> {
        match self {
            ArtifactKind::VideoSegment => "video_recordings_pending"@,
            ArtifactKind::Screenshot => "screenshots_pending"@,
            ArtifactKind::ActivityLog => "activity_logs_pending"@,
        }
    }

    /// First component of the kind's file names.
    pub open spec fn spec_file_prefix(self) -> Seq<char> {
        match self {
            ArtifactKind::VideoSegment => "video"@,
            ArtifactKind::Screenshot => "screenshot"@,
            ArtifactKind::ActivityLog => "activity"@,
        }
    }

    /// File extension of the kind, without the dot.
    pub open spec fn spec_extension(self) -> Seq<char> {
        match self {
            ArtifactKind::VideoSegment => "mp4"@,
            ArtifactKind::Screenshot => "png"@,
            ArtifactKind::ActivityLog => "json"@,
        }
    }

    pub fn pending_dir_name(self) -> (r: String)
        ensures
            r@ == self.spec_pending_dir_name(),
    {
        match self {
            ArtifactKind::VideoSegment => "video_recordings_pending".to_owned(),
            ArtifactKind::Screenshot => "screenshots_pending".to_owned(),
            ArtifactKind::ActivityLog => "activity_logs_pending".to_owned(),
        }
    }

    pub fn file_prefix(self) -> (r: String)
        ensures
            r@ == self.spec_file_prefix(),
    {
        match self {
            ArtifactKind::VideoSegment => "video".to_owned(),
            ArtifactKind::Screenshot => "screenshot".to_owned(),
            ArtifactKind::ActivityLog => "activity".to_owned(),
        }
    }

    pub fn extension(self) -> (r: String)
        ensures
            r@ == self.spec_extension(),
    {
        match self {
            ArtifactKind::VideoSegment => "mp4".to_owned(),
            ArtifactKind::Screenshot => "png".to_owned(),
            ArtifactKind::ActivityLog => "json".to_owned(),
        }
    }

    /// Content type sent along with an upload of this kind.
    pub fn mime_type(self) -> (r: String)
        ensures
            self is VideoSegment ==> r@ == "video/mp4"@,
            self is Screenshot ==> r@ == "image/png"@,
            self is ActivityLog ==> r@ == "application/json"@,
    {
        match self {
            ArtifactKind::VideoSegment => "video/mp4".to_owned(),
            ArtifactKind::Screenshot => "image/png".to_owned(),
            ArtifactKind::ActivityLog => "application/json".to_owned(),
        }
    }

    /// Per-attempt upload timeout in seconds: a larger budget for large
    /// video files than for small snapshots.
    pub fn upload_timeout_secs(self) -> (t: u64)
        ensures
            self is VideoSegment ==> t == 60,
            self is Screenshot ==> t == 10,
            self is ActivityLog ==> t == 15,
    {
        match self {
            ArtifactKind::VideoSegment => 60,
            ArtifactKind::Screenshot => 10,
            ArtifactKind::ActivityLog => 15,
        }
    }
}

/// The decimal digit character of a value below ten.
pub open spec fn spec_digit(d: int) -> char {
    if d == 0 {
        '0'
    } else if d == 1 {
        '1'
    } else if d == 2 {
        '2'
    } else if d == 3 {
        '3'
    } else if d == 4 {
        '4'
    } else if d == 5 {
        '5'
    } else if d == 6 {
        '6'
    } else if d == 7 {
        '7'
    } else if d == 8 {
        '8'
    } else {
        '9'
    }
}

/// Decimal representation of a non-negative value, most significant
/// digit first, no leading zero.
pub open spec fn spec_decimal(n: int) -> Seq<char>
    decreases n,
{
    if n < 10 {
        seq![spec_digit(n)]
    } else {
        spec_decimal(n / 10) + seq![spec_digit(n % 10)]
    }
}

/// Decimal representation padded with zeroes to at least two digits.
pub open spec fn spec_pad2(n: int) -> Seq<char> {
    if n < 10 {
        seq!['0'] + spec_decimal(n)
    } else {
        spec_decimal(n)
    }
}

/// Decimal representation padded with zeroes to at least four digits.
pub open spec fn spec_pad4(n: int) -> Seq<char> {
    if n < 10 {
        seq!['0', '0', '0'] + spec_decimal(n)
    } else if n < 100 {
        seq!['0', '0'] + spec_decimal(n)
    } else if n < 1000 {
        seq!['0'] + spec_decimal(n)
    } else {
        spec_decimal(n)
    }
}

/// Appends the single digit of `d` to `out`.
fn push_digit(out: &mut String, d: u64)
    requires
        d < 10,
    ensures
        final(out)@ == old(out)@ + seq![spec_digit(d as int)],
{
    proof {
        reveal_strlit("0");
        reveal_strlit("1");
        reveal_strlit("2");
        reveal_strlit("3");
        reveal_strlit("4");
        reveal_strlit("5");
        reveal_strlit("6");
        reveal_strlit("7");
        reveal_strlit("8");
        reveal_strlit("9");
    }
    if d == 0 {
        out.append("0");
        proof {
            assert("0"@ =~= seq![spec_digit(0)]);
        }
    } else if d == 1 {
        out.append("1");
        proof {
            assert("1"@ =~= seq![spec_digit(1)]);
        }
    } else if d == 2 {
        out.append("2");
        proof {
            assert("2"@ =~= seq![spec_digit(2)]);
        }
    } else if d == 3 {
        out.append("3");
        proof {
            assert("3"@ =~= seq![spec_digit(3)]);
        }
    } else if d == 4 {
        out.append("4");
        proof {
            assert("4"@ =~= seq![spec_digit(4)]);
        }
    } else if d == 5 {
        out.append("5");
        proof {
            assert("5"@ =~= seq![spec_digit(5)]);
        }
    } else if d == 6 {
        out.append("6");
        proof {
            assert("6"@ =~= seq![spec_digit(6)]);
        }
    } else if d == 7 {
        out.append("7");
        proof {
            assert("7"@ =~= seq![spec_digit(7)]);
        }
    } else if d == 8 {
        out.append("8");
        proof {
            assert("8"@ =~= seq![spec_digit(8)]);
        }
    } else {
        out.append("9");
        proof {
            assert("9"@ =~= seq![spec_digit(9)]);
        }
    }
}

/// Appends the decimal representation of `n` to `out`.
pub fn push_decimal(out: &mut String, n: u64)
    ensures
        final(out)@ == old(out)@ + spec_decimal(n as int),
    decreases n,
{
    if n >= 10 {
        push_decimal(out, n / 10);
    }
    push_digit(out, n % 10);
    proof {
        if n < 10 {
            assert(spec_decimal(n as int) == seq![spec_digit(n as int)]);
        }
    }
}

/// Appends `n` padded to at least two digits.
pub fn push_pad2(out: &mut String, n: u64)
    ensures
        final(out)@ == old(out)@ + spec_pad2(n as int),
{
    if n < 10 {
        push_digit(out, 0);
    }
    push_decimal(out, n);
}

/// Appends `n` padded to at least four digits.
pub fn push_pad4(out: &mut String, n: u64)
    ensures
        final(out)@ == old(out)@ + spec_pad4(n as int),
{
    if n < 10 {
        push_digit(out, 0);
        push_digit(out, 0);
        push_digit(out, 0);
    } else if n < 100 {
        push_digit(out, 0);
        push_digit(out, 0);
    } else if n < 1000 {
        push_digit(out, 0);
    }
    push_decimal(out, n);
}

/// Name of the date-partition directory of one UTC calendar day.
pub open spec fn spec_date_partition(year: int, month: int, day: int) -> Seq<char> {
    spec_pad4(year) + "-"@ + spec_pad2(month) + "-"@ + spec_pad2(day)
}

/// Builds the `YYYY-MM-DD` directory name of one UTC calendar day.
pub fn date_partition_name(year: u32, month: u32, day: u32) -> (r: String)
    requires
        1 <= month <= 12,
        1 <= day <= 31,
    ensures
        r@ == spec_date_partition(year as int, month as int, day as int),
{
    let mut r = String::new();
    push_pad4(&mut r, year as u64);
    r.append("-");
    push_pad2(&mut r, month as u64);
    r.append("-");
    push_pad2(&mut r, day as u64);
    r
}

/// The file name of one artifact: kind prefix, creation timestamp and a
/// collision-free unique suffix, with the kind's extension.
pub open spec fn spec_artifact_file_name(
    kind: ArtifactKind,
    timestamp: Seq<char>,
    unique_id: Seq<char>,
) -> Seq<char> {
    kind.spec_file_prefix() + "_"@ + timestamp + "_"@ + unique_id + "."@ + kind.spec_extension()
}

/// Builds an artifact's file name.
pub fn artifact_file_name(kind: ArtifactKind, timestamp: &str, unique_id: &str) -> (r: String)
    ensures
        r@ == spec_artifact_file_name(kind, timestamp@, unique_id@),
{
    let mut r = kind.file_prefix();
    r.append("_");
    r.append(timestamp);
    r.append("_");
    r.append(unique_id);
    r.append(".");
    let ext = kind.extension();
    r.append(ext.as_str());
    r
}

/// File names are unique by construction: artifacts of one kind whose
/// timestamp strings are equally long but whose unique suffixes differ
/// never share a file name, so a fresh artifact cannot overwrite a
/// pending one and the writer needs no lock against the sweep.
pub proof fn lemma_artifact_file_name_injective(
    kind: ArtifactKind,
    ts1: Seq<char>,
    ts2: Seq<char>,
    id1: Seq<char>,
    id2: Seq<char>,
)
    requires
        ts1.len() == ts2.len(),
        id1.len() == id2.len(),
        id1 != id2,
    ensures
        spec_artifact_file_name(kind, ts1, id1) != spec_artifact_file_name(kind, ts2, id2),
{
    reveal_strlit("_");
    reveal_strlit(".");
    let a = spec_artifact_file_name(kind, ts1, id1);
    let b = spec_artifact_file_name(kind, ts2, id2);
    let p = kind.spec_file_prefix().len() + 1 + ts1.len() + 1;
    if a == b {
        assert forall|i: int| 0 <= i < id1.len() implies id1[i] == id2[i] by {
            assert(a[p as int + i] == id1[i]);
            assert(b[p as int + i] == id2[i]);
        }
        assert(id1 =~= id2);
    }
}

/// Today's date-partition directory name, read from the UTC clock.
/// `None` when the clock reports a year before year 0, which the
/// four-digit layout cannot name; the caller skips that capture cycle.
pub fn today_partition_name() -> (r: Option<String>)
    ensures
        match r {
            Some(name) => exists|y: int, m: int, d: int|
                0 <= y && 1 <= m <= 12 && 1 <= d <= 31 && name@ == spec_date_partition(y, m, d),
            None => true,
        },
{
    let (year, month, day) = crate::external::today_utc();
    if year < 0 {
        None
    } else {
        let name = date_partition_name(year as u32, month, day);
        proof {
            assert(name@ == spec_date_partition(year as int, month as int, day as int));
        }
        Some(name)
    }
}

/// File name for a freshly captured artifact of this kind: the creation
/// timestamp from the UTC clock plus a random 36-character unique
/// suffix, in the kind's naming scheme.
pub fn fresh_artifact_file_name(kind: ArtifactKind) -> (r: String)
    ensures
        exists|ts: Seq<char>, id: Seq<char>|
            id.len() == 36 && r@ == spec_artifact_file_name(kind, ts, id),
{
    let timestamp = match kind {
        ArtifactKind::Screenshot => crate::external::now_timestamp_compact(),
        ArtifactKind::VideoSegment => crate::external::now_timestamp_dashed(),
        ArtifactKind::ActivityLog => crate::external::now_timestamp_dashed(),
    };
    let id = crate::external::new_uuid_string();
    let r = artifact_file_name(kind, timestamp.as_str(), id.as_str());
    proof {
        assert(id@.len() == 36 && r@ == spec_artifact_file_name(kind, timestamp@, id@));
    }
    r
}

/// Whether a byte string ends in the given suffix.
pub open spec fn spec_has_suffix(s: Seq<u8>, suffix: Seq<u8>) -> bool {
    s.len() >= suffix.len() && s.subrange(s.len() - suffix.len(), s.len() as int) == suffix
}

/// Whether a file name carries the given extension, dot included, as the
/// per-kind scanner filters the files of a date partition.
pub fn name_has_extension(name: &str, dot_extension: &str) -> (r: bool)
    ensures
        r == spec_has_suffix(name.spec_bytes(), dot_extension.spec_bytes()),
{
    let nb = name.as_bytes();
    let sb = dot_extension.as_bytes();
    let n = nb.len();
    let m = sb.len();
    if m > n {
        return false;
    }
    let mut i: usize = 0;
    while i < m
        invariant
            nb@ == name.spec_bytes(),
            sb@ == dot_extension.spec_bytes(),
            n == nb@.len(),
            m == sb@.len(),
            m <= n,
            i <= m,
            forall|j: int| 0 <= j < i ==> nb@[n - m + j] == sb@[j],
        decreases m - i,
    {
        if *slice_index_get(nb, n - m + i) != *slice_index_get(sb, i) {
            return false;
        }
        i = i + 1;
    }
    proof {
        assert(nb@.subrange(n as int - m as int, n as int) =~= sb@);
    }
    true
}

} // verus!
