use vstd::prelude::*;

verus! {

/// The SHA-256 digest of a byte sequence.
pub uninterp spec fn sha256_digest(bytes: Seq<u8>) -> Seq<u8>;

/// Relies on sha2::Sha256::digest: the digest of the UTF-8 bytes of `s`,
/// 32 bytes long (its output type is a 32-byte array).
#[verifier::external_body]
fn sha256_of_str(s: &str) -> (r: Vec<u8>)
    ensures
        r@ == sha256_digest(vstd::utf8::encode_utf8(s@)),
        r@.len() == 32,
{
    <sha2::Sha256 as sha2::Digest>::digest(s.as_bytes()).to_vec()
}

/// The lower-case hexadecimal digit of a value below 16.
pub open spec fn hex_digit(n: u8) -> char {
    if n < 10 {
        (('0' as u8) + n) as char
    } else {
        (('a' as u8) + (n - 10)) as char
    }
}

/// Two lower-case hexadecimal digits per byte, high half first.
pub open spec fn hex_of(bytes: Seq<u8>) -> Seq<char>
    decreases bytes.len(),
{
    if bytes.len() == 0 {
        Seq::empty()
    } else {
        let last = (bytes.len() - 1) as int;
        hex_of(bytes.subrange(0, last)) + seq![hex_digit(bytes[last] / 16), hex_digit(bytes[last] % 16)]
    }
}

fn hex_digit_str(n: u8) -> (r: &'static str)
    requires
        n < 16,
    ensures
        r@ == seq![hex_digit(n)],
{
    proof {
        reveal_strlit("0"); reveal_strlit("1"); reveal_strlit("2"); reveal_strlit("3");
        reveal_strlit("4"); reveal_strlit("5"); reveal_strlit("6"); reveal_strlit("7");
        reveal_strlit("8"); reveal_strlit("9"); reveal_strlit("a"); reveal_strlit("b");
        reveal_strlit("c"); reveal_strlit("d"); reveal_strlit("e"); reveal_strlit("f");
    }
    let r = match n {
        0 => "0",
        1 => "1",
        2 => "2",
        3 => "3",
        4 => "4",
        5 => "5",
        6 => "6",
        7 => "7",
        8 => "8",
        9 => "9",
        10 => "a",
        11 => "b",
        12 => "c",
        13 => "d",
        14 => "e",
        _ => "f",
    };
    assert(r@ =~= seq![hex_digit(n)]);
    r
}

/// Encodes bytes as lower-case hexadecimal text.
pub fn hex_encode(bytes: &Vec<u8>) -> (r: String)
    ensures
        r@ == hex_of(bytes@),
        r@.len() == 2 * bytes@.len(),
{
    let mut out = String::new();
    let mut i: usize = 0;
    while i < bytes.len()
        invariant
            i <= bytes.len(),
            out@ == hex_of(bytes@.subrange(0, i as int)),
            out@.len() == 2 * i,
        decreases bytes.len() - i,
    {
        let b = bytes[i];
        proof {
            assert(bytes@.subrange(0, i + 1).subrange(0, i as int) =~= bytes@.subrange(0, i as int));
        }
        out.append(hex_digit_str(b / 16));
        out.append(hex_digit_str(b % 16));
        i = i + 1;
        proof {
            assert(out@ =~= hex_of(bytes@.subrange(0, i as int)));
        }
    }
    proof {
        assert(bytes@.subrange(0, bytes.len() as int) =~= bytes@);
    }
    out
}

/// The checksum that names a per-origin directory: the hexadecimal SHA-256
/// digest of the key's UTF-8 bytes.
pub open spec fn key_checksum(key: Seq<char>) -> Seq<char> {
    hex_of(sha256_digest(vstd::utf8::encode_utf8(key)))
}

/// Computes the checksum of a storage key.
pub fn checksum(key: &str) -> (r: String)
    ensures
        r@ == key_checksum(key@),
        r@.len() == 64,
{
    let digest = sha256_of_str(key);
    hex_encode(&digest)
}

/// A path with one more relative component: a `/` goes between the two
/// unless the base is empty or already ends with one.
pub open spec fn join_path(base: Seq<char>, component: Seq<char>) -> Seq<char> {
    if base.len() == 0 {
        component
    } else if base.last() == '/' {
        base + component
    } else {
        base + seq!['/'] + component
    }
}

/// Appends a relative component to a directory path.
pub fn join_dir(base: &str, component: &str) -> (r: String)
    ensures
        r@ == join_path(base@, component@),
{
    let n = base.unicode_len();
    let mut out = base.to_owned();
    if n > 0 && base.get_char(n - 1) != '/' {
        proof {
            reveal_strlit("/");
        }
        out.append("/");
    }
    out.append(component);
    out
}

/// The view of an optional string.
pub open spec fn opt_view(o: Option<String>) -> Option<Seq<char>> {
    match o {
        Some(s) => Some(s@),
        None => None,
    }
}

/// Decides which key, if any, namespaces the persistent per-origin state of a
/// run.
pub enum StorageKeyResolver {
    /// The main module's identity is the key.
    UseMainModule,
    /// A key fixed beforehand (from a location or a configuration file), or
    /// none at all.
    Fixed(Option<String>),
}

impl StorageKeyResolver {
    /// The key for a main module identity.
    pub open spec fn key_for(&self, main_module: Seq<char>) -> Option<Seq<char>> {
        match self {
            StorageKeyResolver::UseMainModule => Some(main_module),
            StorageKeyResolver::Fixed(k) => opt_view(*k),
        }
    }

    /// Resolves the storage key for a main module identity.
    pub fn resolve_storage_key(&self, main_module: &str) -> (r: Option<String>)
        ensures
            opt_view(r) == self.key_for(main_module@),
    {
        match self {
            StorageKeyResolver::UseMainModule => Some(main_module.to_owned()),
            StorageKeyResolver::Fixed(k) => match k {
                Some(s) => Some(s.clone()),
                None => None,
            },
        }
    }
}

/// A storage key was found while no base directory for per-origin data was
/// configured.
#[derive(Debug, PartialEq, Eq, Structural)]
pub enum StorageError {
    MissingOriginDataFolder,
}

/// The two per-origin directories of a run.
pub struct StorageDirs {
    /// Where per-origin persistent data (such as local storage) lives.
    pub origin_storage_dir: Option<String>,
    /// Where the per-origin cache namespace lives.
    pub cache_storage_dir: Option<String>,
}

/// The directories derived from an optional key, the optional base directory
/// for per-origin data and the root of the cache namespace, as
/// `(origin_storage_dir, cache_storage_dir)`; `None` where a key is present
/// and the base directory is not.
pub open spec fn derived_dirs(
    key: Option<Seq<char>>,
    origin_data_folder: Option<Seq<char>>,
    cache_storage_root: Seq<char>,
) -> Option<(Option<Seq<char>>, Option<Seq<char>>)> {
    match key {
        None => Some((None, None)),
        Some(k) => match origin_data_folder {
            None => None,
            Some(base) => Some(
                (
                    Some(join_path(base, key_checksum(k))),
                    Some(join_path(cache_storage_root, key_checksum(k))),
                ),
            ),
        },
    }
}

/// Derives both per-origin directories from an optional storage key. A key
/// without a configured base directory for per-origin data is refused.
pub fn derive_storage_dirs(
    maybe_key: &Option<String>,
    origin_data_folder: &Option<String>,
    cache_storage_root: &str,
) -> (r: Result<StorageDirs, StorageError>)
    ensures
        r is Err <==> derived_dirs(opt_view(*maybe_key), opt_view(*origin_data_folder), cache_storage_root@) is None,
        r is Err ==> r == Err::<StorageDirs, StorageError>(StorageError::MissingOriginDataFolder),
        r matches Ok(d) ==> derived_dirs(opt_view(*maybe_key), opt_view(*origin_data_folder), cache_storage_root@)
            == Some((opt_view(d.origin_storage_dir), opt_view(d.cache_storage_dir))),
{
    match maybe_key {
        None => Ok(StorageDirs { origin_storage_dir: None, cache_storage_dir: None }),
        Some(key) => match origin_data_folder {
            None => Err(StorageError::MissingOriginDataFolder),
            Some(base) => {
                let sum = checksum(key.as_str());
                let origin = join_dir(base.as_str(), sum.as_str());
                let cache = join_dir(cache_storage_root, sum.as_str());
                Ok(StorageDirs { origin_storage_dir: Some(origin), cache_storage_dir: Some(cache) })
            },
        },
    }
}

/// Deriving the directories is a function of the key, the base directory and
/// the cache root alone: the same inputs give the same directories, byte for
/// byte, on every call.
pub proof fn derived_dirs_are_deterministic(
    key1: Option<Seq<char>>,
    key2: Option<Seq<char>>,
    folder1: Option<Seq<char>>,
    folder2: Option<Seq<char>>,
    root1: Seq<char>,
    root2: Seq<char>,
)
    requires
        key1 == key2,
        folder1 == folder2,
        root1 == root2,
    ensures
        derived_dirs(key1, folder1, root1) == derived_dirs(key2, folder2, root2),
        key1 is Some && folder1 is Some ==> derived_dirs(key1, folder1, root1) == Some(
            (
                Some(join_path(folder1->Some_0, key_checksum(key1->Some_0))),
                Some(join_path(root1, key_checksum(key1->Some_0))),
            ),
        ),
{
}

/// When the resolver yields no key for the main module, neither directory
/// exists, whatever the base directories are.
pub proof fn no_key_means_no_dirs(
    resolver: StorageKeyResolver,
    main_module: Seq<char>,
    origin_data_folder: Option<Seq<char>>,
    cache_storage_root: Seq<char>,
)
    requires
        resolver.key_for(main_module) is None,
    ensures
        derived_dirs(resolver.key_for(main_module), origin_data_folder, cache_storage_root)
            == Some((None::<Seq<char>>, None::<Seq<char>>)),
{
}

} // verus!
