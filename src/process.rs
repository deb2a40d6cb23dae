//! Deciding what a single file becomes.
use vstd::prelude::*;
use crate::comments::{entries_view, lookup, lookup_prefix, style_key};
use crate::config::Config;
use crate::error::SpdxError;
use crate::header::{build_header, check_stamped, detection_fails, header_text, is_stamped};

verus! {

/// The comment prefix that `config` gives the file at `path`.
pub open spec fn prefix_for(config: Config, path: Seq<char>) -> Option<Seq<char>> {
    lookup_prefix(entries_view(config.comments@), style_key(path))
}

/// The new contents of the file at `path` holding `text`, or `None` when it
/// stays as it is: untracked files and stamped files are left alone, others
/// get the header prepended to their unchanged contents.
pub open spec fn rewritten(config: Config, path: Seq<char>, text: Seq<char>) -> Option<Seq<char>> {
    match prefix_for(config, path) {
        None => None,
        Some(p) => if is_stamped(text, p, config.copyright@, config.license@) {
            None
        } else {
            Some(header_text(p, config.copyright@, config.license@) + text)
        },
    }
}

/// Whether deciding on the file needs the detection pattern and the regex
/// engine refuses it.
pub open spec fn rejected(config: Config, path: Seq<char>, text: Seq<char>) -> bool {
    match prefix_for(config, path) {
        None => false,
        Some(p) => detection_fails(text, p, config.copyright@, config.license@),
    }
}

/// Fails with an I/O error when fewer or more bytes were read than the file
/// system reported, which signals a file changed under the reader.
pub fn check_read(reported_len: usize, bytes_read: usize) -> (r: Result<(), SpdxError>)
    ensures
        r is Ok <==> reported_len == bytes_read,
        r matches Err(e) ==> e is IoError,
{
    if reported_len != bytes_read {
        return Err(SpdxError::IoError(String::from_str("Unable to read entire file contents")));
    }
    Ok(())
}

/// Decides what the file at `file_name` becomes. `reported_len` is the size
/// the file system reported and `bytes_read` the number of bytes actually
/// read into `contents`. Returns `Ok(None)` when the file is to stay as it
/// is, and `Ok(Some(c))` when it is to be overwritten from its start with `c`.
pub fn process_file(
    file_name: &str,
    reported_len: usize,
    bytes_read: usize,
    contents: &str,
    config: &Config,
) -> (r: Result<Option<String>, SpdxError>)
    ensures
        reported_len != bytes_read ==> (r matches Err(e) && e is IoError),
        reported_len == bytes_read && rejected(*config, file_name@, contents@) ==> (r matches Err(e)
            && e is ConfigError),
        reported_len == bytes_read && !rejected(*config, file_name@, contents@) ==> (r matches Ok(o)
            && match o {
            Some(c) => rewritten(*config, file_name@, contents@) == Some(c@),
            None => rewritten(*config, file_name@, contents@) is None,
        }),
{
    if let Err(e) = check_read(reported_len, bytes_read) {
        return Err(e);
    }
    match lookup(&config.comments, file_name) {
        None => Ok(None),
        Some(prefix) => {
            match check_stamped(
                contents,
                prefix.as_str(),
                config.copyright.as_str(),
                config.license.as_str(),
            ) {
                None => Err(
                    SpdxError::ConfigError(String::from_str("header pattern rejected by the regex engine")),
                ),
                Some(true) => Ok(None),
                Some(false) => {
                    let mut out = build_header(
                        prefix.as_str(),
                        config.copyright.as_str(),
                        config.license.as_str(),
                    );
                    out.append(contents);
                    Ok(Some(out))
                },
            }
        },
    }
}

/// Processing is idempotent: contents produced by stamping a file are left
/// unchanged by a second run with the same configuration.
pub proof fn lemma_stamp_idempotent(config: Config, path: Seq<char>, text: Seq<char>)
    requires
        rewritten(config, path, text) is Some,
    ensures
        rewritten(config, path, rewritten(config, path, text)->0) is None,
        !rejected(config, path, rewritten(config, path, text)->0),
{
    let p = prefix_for(config, path)->0;
    let h = header_text(p, config.copyright@, config.license@);
    let out = h + text;
    assert(out.subrange(0, h.len() as int) =~= h);
    assert(h.is_prefix_of(out));
}

/// A file whose type has no comment prefix is never rewritten and never
/// fails.
pub proof fn lemma_untracked_unchanged(config: Config, path: Seq<char>, text: Seq<char>)
    requires
        prefix_for(config, path) is None,
    ensures
        rewritten(config, path, text) is None,
        !rejected(config, path, text),
{
}

} // verus!
