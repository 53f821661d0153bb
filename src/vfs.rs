use vstd::prelude::*;

verus! {

/// The specifier of the script read from standard input, relative to the
/// working directory.
pub const STDIN_SPECIFIER: &'static str = "./$deno$stdin.mts";

/// A source file held in memory under a module identity.
pub struct VirtualFile {
    pub specifier: String,
    pub maybe_headers: Option<Vec<(String, String)>>,
    pub source: Vec<u8>,
}

/// The most recent file registered under `id`, if any.
pub open spec fn find(files: Seq<VirtualFile>, id: Seq<char>) -> Option<VirtualFile>
    decreases files.len(),
{
    if files.len() == 0 {
        None
    } else if files.last().specifier@ == id {
        Some(files.last())
    } else {
        find(files.drop_last(), id)
    }
}

/// An in-memory store of source files, consulted before any real file
/// system or network lookup. A later registration under an identity
/// supersedes an earlier one.
pub struct VirtualFileRegistry {
    pub files: Vec<VirtualFile>,
}

impl VirtualFileRegistry {
    /// The file that a lookup of `id` returns.
    pub open spec fn lookup(&self, id: Seq<char>) -> Option<VirtualFile> {
        find(self.files@, id)
    }

    /// An empty registry.
    pub fn new() -> (r: VirtualFileRegistry)
        ensures
            r.files@.len() == 0,
            forall|id: Seq<char>| r.lookup(id) is None,
    {
        VirtualFileRegistry { files: Vec::new() }
    }

    /// Registers a file under its specifier.
    pub fn insert_memory_file(&mut self, file: VirtualFile)
        ensures
            final(self).files@ == old(self).files@.push(file),
            final(self).lookup(file.specifier@) == Some(file),
            forall|id: Seq<char>| id != file.specifier@ ==> final(self).lookup(id) == old(self).lookup(id),
    {
        self.files.push(file);
        proof {
            registered_file_is_found(old(self).files@, file);
        }
    }

    /// Looks up the file registered under a specifier.
    pub fn get(&self, specifier: &str) -> (r: Option<&VirtualFile>)
        ensures
            r matches Some(f) ==> self.lookup(specifier@) == Some(*f),
            r is None ==> self.lookup(specifier@) is None,
    {
        let key = specifier.to_owned();
        let mut i: usize = self.files.len();
        proof {
            assert(self.files@.subrange(0, i as int) =~= self.files@);
        }
        while i > 0
            invariant
                i <= self.files.len(),
                key@ == specifier@,
                find(self.files@.subrange(0, i as int), specifier@) == self.lookup(specifier@),
            decreases i,
        {
            let ghost prefix = self.files@.subrange(0, i as int);
            proof {
                assert(prefix.drop_last() =~= self.files@.subrange(0, i - 1));
            }
            if self.files[i - 1].specifier == key {
                return Some(&self.files[i - 1]);
            }
            i = i - 1;
        }
        None
    }
}

/// After a file is registered, a lookup of its specifier returns that very
/// file, its bytes unaltered, and lookups of every other specifier return
/// what they returned before. A lookup changes nothing, so this holds for
/// any number of lookups.
pub proof fn registered_file_is_found(files: Seq<VirtualFile>, file: VirtualFile)
    ensures
        find(files.push(file), file.specifier@) == Some(file),
        find(files.push(file), file.specifier@)->Some_0.source@ == file.source@,
        forall|id: Seq<char>| id != file.specifier@ ==> find(files.push(file), id) == find(files, id),
{
    assert(files.push(file).drop_last() =~= files);
}

/// Why a specifier could not be turned into a module identity.
#[derive(Debug, PartialEq, Eq, Structural)]
pub enum IdentityError {
    /// The specifier has a URL scheme but is no valid URL.
    InvalidUrl,
    /// The specifier is a path that gives no file URL against the directory.
    InvalidPath,
}

/// The module identity that a specifier resolves to against a directory,
/// or `None` where it resolves to none.
pub uninterp spec fn resolved_identity(specifier: Seq<char>, current_dir: Seq<char>) -> Option<Seq<char>>;

/// A character that may follow the first one in a URL scheme.
pub open spec fn is_scheme_char(c: char) -> bool {
    ('a' <= c <= 'z') || ('A' <= c <= 'Z') || ('0' <= c <= '9') || c == '+' || c == '-' || c == '.'
}

/// The specifier starts with a URL scheme of at least two characters
/// (a letter, then letters, digits, `+`, `-` or `.`) followed by `:`.
pub open spec fn has_uri_scheme(s: Seq<char>) -> bool {
    exists|k: int|
        2 <= k < s.len() && s[k] == ':' && (('a' <= s[0] <= 'z') || ('A' <= s[0] <= 'Z'))
            && forall|i: int| 1 <= i < k ==> #[trigger] is_scheme_char(s[i])
}

/// Relies on deno_path_util::resolve_url_or_path: a specifier with a URL
/// scheme is parsed as a URL (a failure there is a URL error), any other is
/// joined onto the directory as a path and turned into a file URL (a failure
/// there is a path error); the result depends on the two strings alone.
#[verifier::external_body]
fn resolve_url_or_path(specifier: &str, current_dir: &str) -> (r: Result<String, IdentityError>)
    ensures
        r matches Ok(s) ==> resolved_identity(specifier@, current_dir@) == Some(s@),
        r is Err ==> resolved_identity(specifier@, current_dir@) is None,
        r matches Err(e) ==> (e == IdentityError::InvalidUrl <==> has_uri_scheme(specifier@)),
{
    match deno_path_util::resolve_url_or_path(specifier, std::path::Path::new(current_dir)) {
        Ok(url) => Ok(url.to_string()),
        Err(deno_path_util::ResolveUrlOrPathError::UrlParse(_)) => Err(IdentityError::InvalidUrl),
        Err(deno_path_util::ResolveUrlOrPathError::PathToUrl(_)) => Err(IdentityError::InvalidPath),
    }
}

/// Registers the bytes read from standard input under the identity that the
/// reserved stdin specifier resolves to against `current_dir`, without
/// headers, and returns that identity. Where it resolves to none, the
/// registry is left as it was.
pub fn register_stdin_source(
    registry: &mut VirtualFileRegistry,
    current_dir: &str,
    source: Vec<u8>,
) -> (r: Result<String, IdentityError>)
    ensures
        r is Ok <==> resolved_identity(STDIN_SPECIFIER@, current_dir@) is Some,
        r matches Ok(id) ==> {
            &&& resolved_identity(STDIN_SPECIFIER@, current_dir@) == Some(id@)
            &&& final(registry).files@.len() == old(registry).files@.len() + 1
            &&& final(registry).lookup(id@) matches Some(f) && f.source@ == source@
                && f.maybe_headers is None && f.specifier@ == id@
            &&& forall|other: Seq<char>| other != id@ ==> final(registry).lookup(other) == old(registry).lookup(other)
        },
        r is Err ==> r == Err::<String, IdentityError>(IdentityError::InvalidPath)
            && final(registry).files@ == old(registry).files@,
{
    proof {
        reveal_strlit("./$deno$stdin.mts");
    }
    let id = resolve_url_or_path(STDIN_SPECIFIER, current_dir)?;
    let file = VirtualFile { specifier: id.clone(), maybe_headers: None, source };
    registry.insert_memory_file(file);
    Ok(id)
}

} // verus!
