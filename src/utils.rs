//! Feedback lines, input clean-up and backup names.

use vstd::prelude::*;
use vstd::string::{StrSliceExecFns, StringExecFns};
use crate::text::chars_of;

verus! {

/// `s` without one trailing `\n`, and then without one `\r` before it.
pub open spec fn trimmed(s: Seq<char>) -> Seq<char> {
    if s.len() > 0 && s.last() == '\n' {
        let t = s.drop_last();
        if t.len() > 0 && t.last() == '\r' {
            t.drop_last()
        } else {
            t
        }
    } else {
        s
    }
}

/// Removes the line break that ends a line read from a terminal: one `\n`,
/// and one `\r` before it.
pub fn trim_newline(s: &mut String)
    ensures
        final(s)@ == trimmed(old(s)@),
{
    let cs = chars_of(s.as_str());
    let mut k: usize = cs.len();
    if k > 0 && cs[k - 1] == '\n' {
        k = k - 1;
        if k > 0 && cs[k - 1] == '\r' {
            k = k - 1;
        }
    }
    let t = s.as_str().substring_char(0, k).to_string();
    proof {
        let o = cs@;
        if o.len() > 0 && o.last() == '\n' {
            assert(o.drop_last() =~= o.subrange(0, o.len() - 1));
            let t1 = o.drop_last();
            if t1.len() > 0 && t1.last() == '\r' {
                assert(t1.drop_last() =~= o.subrange(0, o.len() - 2));
            }
        } else {
            assert(o =~= o.subrange(0, o.len() as int));
        }
    }
    *s = t;
}

/// What was done for one specification line, as its feedback tag tells.
#[derive(Debug, Clone, Copy, PartialEq, Eq, Structural)]
pub enum Tag {
    /// `d`: the symlink was made.
    Done,
    /// `.`: the symlink was already there.
    AlreadyThere,
    /// `s`: a conflict, skipped.
    Skipped,
    /// `b`: a conflict, backed up.
    BackedUp,
    /// `o`: a conflict, overwritten.
    Overwritten,
}

pub open spec fn tag_text(tag: Tag) -> Seq<char> {
    match tag {
        Tag::Done => "(d) "@,
        Tag::AlreadyThere => "(.) "@,
        Tag::Skipped => "(s) "@,
        Tag::BackedUp => "(b) "@,
        Tag::Overwritten => "(o) "@,
    }
}

/// The feedback line `(<tag>) <link> -> <target>`.
pub open spec fn feedback_text(tag: Tag, target: Seq<char>, link: Seq<char>) -> Seq<char> {
    tag_text(tag) + link + " -> "@ + target
}

/// The feedback line for `tag` on the symlink `link -> target`.
pub fn feedback(tag: Tag, target: &str, link: &str) -> (r: String)
    ensures
        r@ == feedback_text(tag, target@, link@),
{
    let mut r = match tag {
        Tag::Done => "(d) ".to_string(),
        Tag::AlreadyThere => "(.) ".to_string(),
        Tag::Skipped => "(s) ".to_string(),
        Tag::BackedUp => "(b) ".to_string(),
        Tag::Overwritten => "(o) ".to_string(),
    };
    r.append(link);
    r.append(" -> ");
    r.append(target);
    r
}

/// Skips a conflict: nothing on disk changes, and the result is the
/// feedback line `(s) <link> -> <target>`.
pub fn skip(target: &str, link: &str) -> (r: String)
    ensures
        r@ == feedback_text(Tag::Skipped, target@, link@),
{
    feedback(Tag::Skipped, target, link)
}

/// The name under which a conflicting file is kept in the backup
/// directory: its stem, `_backup_` and the time, then its extension.
/// A path without a stem gives `.` followed by its extension, `_backup_`
/// and the time.
pub open spec fn backup_name(stem: Option<Seq<char>>, extension: Option<Seq<char>>, timestamp: Seq<char>) -> Seq<char> {
    match stem {
        Some(st) => st + "_backup_"@ + timestamp + match extension {
            Some(e) => "."@ + e,
            None => Seq::<char>::empty(),
        },
        None => "."@ + match extension {
            Some(e) => e + "_backup_"@ + timestamp,
            None => Seq::<char>::empty(),
        },
    }
}

/// The backup name made of a path's `stem`, its `extension` and a `timestamp`.
pub fn backup_name_of(stem: Option<&str>, extension: Option<&str>, timestamp: &str) -> (r: String)
    ensures
        r@ == backup_name(
            match stem { Some(s) => Some(s@), None => None },
            match extension { Some(e) => Some(e@), None => None },
            timestamp@,
        ),
{
    match stem {
        Some(st) => {
            let mut r = st.to_string();
            r.append("_backup_");
            r.append(timestamp);
            match extension {
                Some(e) => {
                    r.append(".");
                    r.append(e);
                    proof {
                        assert(r@ =~= st@ + "_backup_"@ + timestamp@ + ("."@ + e@));
                    }
                },
                None => {
                    assert(r@ =~= st@ + "_backup_"@ + timestamp@ + Seq::<char>::empty());
                },
            }
            r
        },
        None => {
            let mut r = ".".to_string();
            match extension {
                Some(e) => {
                    r.append(e);
                    r.append("_backup_");
                    r.append(timestamp);
                    assert(r@ =~= "."@ + (e@ + "_backup_"@ + timestamp@));
                },
                None => {
                    assert(r@ =~= "."@ + Seq::<char>::empty());
                },
            }
            r
        },
    }
}

/// What `std::path::Path::file_stem` gives for a path.
pub uninterp spec fn file_stem_of(p: Seq<char>) -> Option<Seq<char>>;

/// What `std::path::Path::extension` gives for a path.
pub uninterp spec fn extension_of(p: Seq<char>) -> Option<Seq<char>>;

/// Relies on `std::path::Path::file_stem`: the last component's name
/// without its extension. It depends on the path alone.
#[verifier::external_body]
fn path_file_stem(p: &str) -> (r: Option<String>)
    ensures
        match r {
            Some(s) => file_stem_of(p@) == Some(s@),
            None => file_stem_of(p@) is None,
        },
{
    std::path::Path::new(p).file_stem().map(|s| s.to_string_lossy().into_owned())
}

/// Relies on `std::path::Path::extension`: the last component's extension.
/// It depends on the path alone.
#[verifier::external_body]
fn path_extension(p: &str) -> (r: Option<String>)
    ensures
        match r {
            Some(s) => extension_of(p@) == Some(s@),
            None => extension_of(p@) is None,
        },
{
    std::path::Path::new(p).extension().map(|s| s.to_string_lossy().into_owned())
}

/// Relies on `chrono::Local::now` and `DateTime::to_rfc3339`: the local
/// time now, in RFC 3339. It depends on the clock.
#[verifier::external_body]
fn local_now_rfc3339() -> (r: String) {
    chrono::Local::now().to_rfc3339()
}

fn opt_str(o: &Option<String>) -> (r: Option<&str>)
    ensures
        match o {
            Some(s) => r is Some && r->Some_0@ == s@,
            None => r is None,
        },
{
    match o {
        Some(s) => Some(s.as_str()),
        None => None,
    }
}

/// The name under which the file at `link` is backed up now: the time is
/// the local time of the call.
pub fn backup_file_name(link: &str) -> (r: String)
    ensures
        exists|timestamp: Seq<char>| r@ == backup_name(file_stem_of(link@), extension_of(link@), timestamp),
{
    let stem = path_file_stem(link);
    let extension = path_extension(link);
    let now = local_now_rfc3339();
    let r = backup_name_of(opt_str(&stem), opt_str(&extension), now.as_str());
    assert(r@ == backup_name(file_stem_of(link@), extension_of(link@), now@));
    r
}

} // verus!
