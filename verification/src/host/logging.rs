//! Per-extension log files and the redaction applied on the way in.
use std::path::{Path, PathBuf};

use vstd::prelude::*;

use crate::host::paths::{joined_path, path_join};
use crate::text::{chars_of, contains, push_char, push_str, seq_contains};

verus! {

/// Overrides the extension log root, used by tests and packaging.
pub const EXTENSION_LOG_DIR_ENV: &'static str = "WARP_EXTENSION_LOG_DIR";

/// Substrings that mark a line as carrying a secret.
///
/// Redaction is by key rather than by value shape because a token is not
/// recognisable on sight, but the field that carries it almost always is.
pub open spec fn secret_markers() -> Seq<Seq<char>> {
    seq![
        "password"@,
        "passphrase"@,
        "secret"@,
        "token"@,
        "authorization"@,
        "credential"@,
        "api_key"@,
        "apikey"@,
        "private_key"@,
    ]
}

/// What replaces a line that names a secret.
pub open spec fn redaction_notice() -> Seq<char> {
    "[redacted line containing a secret-shaped field]"@
}

/// `char::to_ascii_lowercase`.
pub open spec fn lower(c: char) -> char {
    if 'A' <= c && c <= 'Z' { ((c as u8) + 32) as char } else { c }
}

/// `str::to_ascii_lowercase`.
pub open spec fn lowered(s: Seq<char>) -> Seq<char> {
    s.map_values(|c: char| lower(c))
}

/// True when the line, ASCII-lowercased, contains a secret marker.
pub open spec fn sensitive(line: Seq<char>) -> bool {
    exists|i: int| 0 <= i < secret_markers().len() && seq_contains(lowered(line), #[trigger] secret_markers()[i])
}

/// The characters a log file name keeps; anything else becomes `_`.
pub open spec fn file_name_char(c: char) -> char {
    if ('a' <= c && c <= 'z') || ('A' <= c && c <= 'Z') || ('0' <= c && c <= '9') || c == '.' || c == '-' || c == '_' {
        c
    } else {
        '_'
    }
}

/// The log file name for an extension id: the id with every character
/// outside `[A-Za-z0-9._-]` replaced by `_`, then `.log`.
pub open spec fn log_file_name(id: Seq<char>) -> Seq<char> {
    id.map_values(|c: char| file_name_char(c)) + ".log"@
}

fn lower_char(c: char) -> (d: char)
    ensures
        d == lower(c),
{
    if 'A' <= c && c <= 'Z' {
        let code: u8 = c as u8;
        let d: char = (code + 32) as char;
        d
    } else {
        c
    }
}

/// The file name an extension's log is written to, under the log root.
///
/// The id is sanitised because it reaches here from a manifest, and a
/// manifest is not trusted to stay inside the log directory: no separator
/// survives, so the name is a single path component.
pub fn log_file_name_of(extension_id: &str) -> (name: String)
    ensures
        name@ == log_file_name(extension_id@),
        !name@.contains('/'),
{
    let v = chars_of(extension_id);
    let mut name = String::new();
    let mut i: usize = 0;
    while i < v.len()
        invariant
            0 <= i <= v@.len(),
            v@ == extension_id@,
            name@ == v@.take(i as int).map_values(|c: char| file_name_char(c)),
        decreases v@.len() - i,
    {
        let c = v[i];
        let keep = ('a' <= c && c <= 'z') || ('A' <= c && c <= 'Z') || ('0' <= c && c <= '9') || c == '.' || c == '-' || c == '_';
        push_char(&mut name, if keep { c } else { '_' });
        assert(v@.take(i + 1).map_values(|c: char| file_name_char(c)) =~= v@.take(i as int).map_values(
            |c: char| file_name_char(c),
        ).push(file_name_char(v@[i as int])));
        i += 1;
    }
    assert(v@.take(v@.len() as int) =~= v@);
    push_str(&mut name, ".log");
    proof {
        reveal_strlit(".log");
        assert forall|k: int| 0 <= k < name@.len() implies name@[k] != '/' by {
            if k < v@.len() {
                assert(name@[k] == file_name_char(v@[k]));
            }
        }
    }
    name
}

/// Log file for one extension id under an explicit root: the sanitised
/// [`log_file_name_of`] joined onto `root`.
pub fn extension_log_path_in(root: &Path, extension_id: &str) -> (p: PathBuf)
    ensures
        p == joined_path(root, log_file_name(extension_id@)),
{
    let name = log_file_name_of(extension_id);
    path_join(root, name.as_str())
}

/// `Write::flush` on `w`; its outcome depends on `w` and is not stated.
#[verifier::external_body]
fn flush_writer<W: std::io::Write>(w: &mut W) -> (r: Result<(), std::io::Error>) {
    w.flush()
}

/// Writes lines to an extension log, dropping any that name a secret.
///
/// Dropping a whole line rather than masking part of it is deliberate: plugin
/// output has no schema, so there is no reliable way to keep the safe half.
pub struct RedactingWriter<W> {
    inner: W,
    /// The text of every line handed to `inner` so far, in order.
    offered: Ghost<Seq<Seq<char>>>,
}

impl<W> RedactingWriter<W> {
    /// The writer the lines go to.
    pub closed spec fn writer(&self) -> W {
        self.inner
    }

    /// The text handed to the writer so far, one entry per
    /// [`RedactingWriter::write_line`], each with its newline. Whether the
    /// writer stored it is what each call's result reports.
    pub closed spec fn offered(&self) -> Seq<Seq<char>> {
        self.offered@
    }
}

/// The text written for a line: the line itself, or the redaction notice when
/// it names a secret.
pub open spec fn written_text(line: Seq<char>) -> Seq<char> {
    if sensitive(line) { redaction_notice() } else { line }
}

/// The text to write for `line`.
pub fn redacted(line: &str) -> (s: &str)
    ensures
        s@ == written_text(line@),
{
    if is_sensitive_line(line) {
        "[redacted line containing a secret-shaped field]"
    } else {
        line
    }
}

fn is_sensitive_line(line: &str) -> (b: bool)
    ensures
        b == sensitive(line@),
{
    let v = chars_of(line);
    let mut low: Vec<char> = Vec::new();
    let mut i: usize = 0;
    while i < v.len()
        invariant
            0 <= i <= v@.len(),
            v@ == line@,
            low@ == v@.take(i as int).map_values(|c: char| lower(c)),
        decreases v@.len() - i,
    {
        low.push(lower_char(v[i]));
        assert(v@.take(i + 1).map_values(|c: char| lower(c)) =~= v@.take(i as int).map_values(
            |c: char| lower(c),
        ).push(lower(v@[i as int])));
        i += 1;
    }
    assert(v@.take(v@.len() as int) =~= v@);
    let markers: [&str; 9] = [
        "password",
        "passphrase",
        "secret",
        "token",
        "authorization",
        "credential",
        "api_key",
        "apikey",
        "private_key",
    ];
    assert(markers@.map_values(|m: &str| m@) =~= secret_markers());
    let mut k: usize = 0;
    while k < 9
        invariant
            0 <= k <= 9,
            low@ == lowered(line@),
            markers@.map_values(|m: &str| m@) == secret_markers(),
            forall|j: int| 0 <= j < k ==> !seq_contains(lowered(line@), #[trigger] secret_markers()[j]),
        decreases 9 - k,
    {
        let marker = chars_of(markers[k]);
        assert(marker@ == secret_markers()[k as int]);
        if contains(&low, &marker) {
            return true;
        }
        k += 1;
    }
    false
}

impl<W> RedactingWriter<W> {
    /// A writer onto `inner` that has handed it nothing yet.
    pub fn new(inner: W) -> (r: Self)
        ensures
            r.writer() == inner,
            r.offered() == Seq::<Seq<char>>::empty(),
    {
        RedactingWriter { inner, offered: Ghost(Seq::empty()) }
    }

    /// True when the line, lowercased, contains a secret-shaped key.
    pub fn is_sensitive(line: &str) -> (b: bool)
        ensures
            b == sensitive(line@),
    {
        is_sensitive_line(line)
    }
}

impl<W: std::io::Write> RedactingWriter<W> {
    /// `writeln!(inner, "{text}")`: hands the writer `text` and a newline,
    /// which [`RedactingWriter::offered`] records. Whether the writer stores
    /// them depends on the writer and is not stated.
    #[verifier::external_body]
    fn send_line(&mut self, text: &str) -> (r: std::io::Result<()>)
        ensures
            final(self).offered() == old(self).offered().push(text@ + seq!['\n']),
    {
        writeln!(self.inner, "{text}")
    }

    /// Writes `line`, or the redaction notice in its place when it names a
    /// secret, followed by a newline; which text goes out is
    /// [`written_text`]. The result is the writer's own.
    pub fn write_line(&mut self, line: &str) -> (r: std::io::Result<()>)
        ensures
            final(self).offered() == old(self).offered().push(written_text(line@) + seq!['\n']),
    {
        self.send_line(redacted(line))
    }

    /// Flushes the writer; it hands it no text, and the result is the
    /// writer's own.
    pub fn flush(&mut self) -> (r: std::io::Result<()>)
        ensures
            final(self).offered() == old(self).offered(),
    {
        flush_writer(&mut self.inner)
    }
}

} // verus!
