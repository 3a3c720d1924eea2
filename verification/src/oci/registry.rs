//! Registry credentials, registry auth resolution, platform selection in an image
//! index and layer download planning.

use vstd::prelude::*;
use vstd::string::StringExecFns;

use crate::error::MicrosandboxError;
use crate::oci::auth::normal_host_keep_index;
use crate::text::{
    lemma_ascii_trimmed_text,
    ascii_lowercase, ascii_trimmed, decimal_string, decimal_text, is_ascii_text,
    lemma_ascii_trimmed_is_ascii, lowercased_text, std_to_lowercase, std_trim, str_equal,
    strip_prefix, trim_end_matches_char, trimmed_text,
};

verus! {

//--------------------------------------------------------------------------------------------------
// Credentials
//--------------------------------------------------------------------------------------------------

/// Registry credentials as the user stores them (`msb login`).
#[derive(Debug)]
pub enum StoredRegistryCredentials {
    /// A username and a password.
    Basic { username: String, password: String },
    /// A bearer token.
    Token { token: String },
}

/// How a client authenticates to a registry.
#[derive(Debug)]
pub enum RegistryAuth {
    /// Access the registry anonymously.
    Anonymous,
    /// HTTP Basic authentication (username, password).
    Basic(String, String),
    /// Bearer token authentication.
    Bearer(String),
}

/// What a set of credential inputs amounts to.
pub enum ParsedCredentials {
    /// Complete credentials.
    Present(StoredRegistryCredentials),
    /// No credential input at all.
    Missing,
    /// A username without a password, or a password without a username.
    Incomplete,
}

/// A token may not be given together with a username or a password.
pub open spec fn token_conflict(
    username: Option<String>,
    password: Option<String>,
    token: Option<String>,
) -> bool {
    token is Some && (username is Some || password is Some)
}

/// What credential inputs that do not conflict amount to.
pub open spec fn parsed_credentials(
    username: Option<String>,
    password: Option<String>,
    token: Option<String>,
) -> ParsedCredentials {
    match token {
        Some(t) => ParsedCredentials::Present(StoredRegistryCredentials::Token { token: t }),
        None => match (username, password) {
            (Some(u), Some(p)) => ParsedCredentials::Present(
                StoredRegistryCredentials::Basic { username: u, password: p },
            ),
            (None, None) => ParsedCredentials::Missing,
            _ => ParsedCredentials::Incomplete,
        },
    }
}

/// Classifies credential inputs: a token alone, a username with a password,
/// nothing, or an incomplete pair. A token given with a username or a password is
/// an error.
pub fn parse_credential_inputs(
    input_username: Option<String>,
    input_password: Option<String>,
    input_token: Option<String>,
) -> (r: Result<ParsedCredentials, MicrosandboxError>)
    ensures
        r is Err <==> token_conflict(input_username, input_password, input_token),
        r matches Ok(parsed) ==> parsed == parsed_credentials(
            input_username,
            input_password,
            input_token,
        ),
        r matches Err(e) ==> e matches MicrosandboxError::InvalidArgument(m) && m@
            == "token cannot be combined with username/password"@,
{
    if input_token.is_some() && (input_username.is_some() || input_password.is_some()) {
        return Err(
            MicrosandboxError::InvalidArgument(
                String::from_str("token cannot be combined with username/password"),
            ),
        );
    }
    if let Some(token) = input_token {
        return Ok(ParsedCredentials::Present(StoredRegistryCredentials::Token { token }));
    }
    match (input_username, input_password) {
        (Some(username), Some(password)) => Ok(
            ParsedCredentials::Present(StoredRegistryCredentials::Basic { username, password }),
        ),
        (None, None) => Ok(ParsedCredentials::Missing),
        _ => Ok(ParsedCredentials::Incomplete),
    }
}

/// Resolve explicit registry credentials from user-provided inputs only.
///
/// This function does not read environment variables nor stored credentials.
pub fn resolve_explicit_credentials(
    username: Option<String>,
    password: Option<String>,
    token: Option<String>,
) -> (r: Result<StoredRegistryCredentials, MicrosandboxError>)
    ensures
        r is Ok <==> parsed_credentials(username, password, token) is Present && !token_conflict(
            username,
            password,
            token,
        ),
        r matches Ok(c) ==> parsed_credentials(username, password, token) == ParsedCredentials::Present(c),
        r matches Err(e) ==> e matches MicrosandboxError::InvalidArgument(m) && m@ == (
        if token_conflict(username, password, token) {
            "token cannot be combined with username/password"@
        } else if parsed_credentials(username, password, token) is Missing {
            "no credentials provided; explicitly pass --token or --username with --password-stdin"@
        } else {
            "both username and password are required"@
        }),
{
    match parse_credential_inputs(username, password, token) {
        Err(e) => Err(e),
        Ok(ParsedCredentials::Present(credentials)) => Ok(credentials),
        Ok(ParsedCredentials::Missing) => Err(
            MicrosandboxError::InvalidArgument(
                String::from_str(
                    "no credentials provided; explicitly pass --token or --username with --password-stdin",
                ),
            ),
        ),
        Ok(ParsedCredentials::Incomplete) => Err(
            MicrosandboxError::InvalidArgument(
                String::from_str("both username and password are required"),
            ),
        ),
    }
}

/// The auth that stored credentials give.
pub open spec fn auth_of_stored(stored: StoredRegistryCredentials) -> RegistryAuth {
    match stored {
        StoredRegistryCredentials::Basic { username, password } => RegistryAuth::Basic(
            username,
            password,
        ),
        StoredRegistryCredentials::Token { token } => RegistryAuth::Bearer(token),
    }
}

/// Turns stored credentials into registry auth.
pub fn stored_to_registry_auth(stored: StoredRegistryCredentials) -> (r: RegistryAuth)
    ensures
        r == auth_of_stored(stored),
{
    match stored {
        StoredRegistryCredentials::Basic { username, password } => RegistryAuth::Basic(
            username,
            password,
        ),
        StoredRegistryCredentials::Token { token } => RegistryAuth::Bearer(token),
    }
}

/// First step of resolving registry auth: the credentials given in the
/// environment. `Ok(Some(auth))` when they decide; `Ok(None)` when they are missing
/// or incomplete, so that stored credentials are consulted next.
pub fn resolve_auth_from_env(
    env_username: Option<String>,
    env_password: Option<String>,
    env_token: Option<String>,
) -> (r: Result<Option<RegistryAuth>, MicrosandboxError>)
    ensures
        r is Err <==> token_conflict(env_username, env_password, env_token),
        r matches Ok(decided) ==> decided == (match parsed_credentials(
            env_username,
            env_password,
            env_token,
        ) {
            ParsedCredentials::Present(c) => Some(auth_of_stored(c)),
            _ => None,
        }),
        r matches Err(e) ==> e matches MicrosandboxError::InvalidArgument(m) && m@
            == "token cannot be combined with username/password"@,
{
    match parse_credential_inputs(env_username, env_password, env_token) {
        Err(e) => Err(e),
        Ok(ParsedCredentials::Present(credentials)) => Ok(Some(stored_to_registry_auth(credentials))),
        Ok(_) => Ok(None),
    }
}

/// Last step of resolving registry auth: stored credentials for the registry if
/// there are any, else anonymous access.
pub fn resolve_auth_from_stored(stored: Option<StoredRegistryCredentials>) -> (r: RegistryAuth)
    ensures
        r == (match stored {
            Some(c) => auth_of_stored(c),
            None => RegistryAuth::Anonymous,
        }),
{
    match stored {
        Some(c) => stored_to_registry_auth(c),
        None => RegistryAuth::Anonymous,
    }
}

/// Resolve the auth for a registry: credentials in the environment decide where
/// they are complete (and are refused where a token comes with a username or a
/// password); else the credentials stored for the registry; else anonymous access.
pub fn resolve_auth(
    env_username: Option<String>,
    env_password: Option<String>,
    env_token: Option<String>,
    stored: Option<StoredRegistryCredentials>,
) -> (r: Result<RegistryAuth, MicrosandboxError>)
    ensures
        r is Err <==> token_conflict(env_username, env_password, env_token),
        r matches Err(e) ==> e matches MicrosandboxError::InvalidArgument(m) && m@
            == "token cannot be combined with username/password"@,
        r matches Ok(auth) ==> auth == (match parsed_credentials(env_username, env_password, env_token) {
            ParsedCredentials::Present(c) => auth_of_stored(c),
            _ => match stored {
                Some(c) => auth_of_stored(c),
                None => RegistryAuth::Anonymous,
            },
        }),
{
    match resolve_auth_from_env(env_username, env_password, env_token)? {
        Some(auth) => Ok(auth),
        None => Ok(resolve_auth_from_stored(stored)),
    }
}

//--------------------------------------------------------------------------------------------------
// GitHub Container Registry
//--------------------------------------------------------------------------------------------------

/// Stores authentication credentials obtained from the Github Container
/// Registry.
pub struct GhcrAuthMaterial {
    /// The token used to authenticate the requests to the Github Container Registry
    pub token: String,
}

/// The scopes, in order, joined by commas.
pub open spec fn joined_scopes(scopes: Seq<&str>) -> Seq<char>
    decreases scopes.len(),
{
    if scopes.len() == 0 {
        Seq::empty()
    } else if scopes.len() == 1 {
        scopes[0]@
    } else {
        joined_scopes(scopes.drop_last()) + ","@ + scopes.last()@
    }
}

/// The scope that a token request for a repository asks for:
/// `repository:<name>:<scopes joined by commas>`.
pub fn auth_scope(repository: &str, scopes: &Vec<&str>) -> (r: String)
    ensures
        r@ == "repository:"@ + repository@ + ":"@ + joined_scopes(scopes@),
{
    let mut joined = String::new();
    let mut i: usize = 0;
    while i < scopes.len()
        invariant
            i <= scopes@.len(),
            joined@ == joined_scopes(scopes@.take(i as int)),
        decreases scopes@.len() - i,
    {
        let ghost before = joined@;
        assert(scopes@.take(i + 1).drop_last() =~= scopes@.take(i as int));
        if i > 0 {
            joined = joined.concat(",");
        }
        joined = joined.concat(scopes[i]);
        proof {
            if i == 0 {
                assert(joined@ =~= scopes@[0]@);
            } else {
                assert(joined@ =~= before + ","@ + scopes@[i as int]@);
            }
        }
        i = i + 1;
    }
    assert(scopes@.take(scopes@.len() as int) =~= scopes@);
    String::from_str("repository:").concat(repository).concat(":").concat(joined.as_str())
}

/// The `Range` header that resumes a download at byte `start` and ends at byte `end`.
pub fn range_header(start: u64, end: u64) -> (r: String)
    ensures
        r@ == "bytes="@ + decimal_text(start as nat) + "-"@ + decimal_text(end as nat),
{
    String::from_str("bytes=").concat(decimal_string(start).as_str()).concat("-").concat(
        decimal_string(end).as_str(),
    )
}

//--------------------------------------------------------------------------------------------------
// Pulling an image
//--------------------------------------------------------------------------------------------------

/// What part of a repository is pulled: a tag (pinned to a digest, if given as
/// algorithm and hex), or a digest alone.
pub enum ReferenceSelector {
    /// A tag, and the digest it is pinned to where one is given.
    Tag {
        /// The tag
        tag: String,
        /// The digest's algorithm and hex value
        digest: Option<(String, String)>,
    },
    /// A digest: algorithm and hex value.
    Digest(String, String),
}

/// The reference a selector is pulled and recorded under: `tag`, `tag@alg:hex`
/// or `@alg:hex`.
pub open spec fn selector_text(selector: ReferenceSelector) -> Seq<char> {
    match selector {
        ReferenceSelector::Tag { tag, digest } => tag@ + match digest {
            Some((alg, hex)) => "@"@ + alg@ + ":"@ + hex@,
            None => Seq::empty(),
        },
        ReferenceSelector::Digest(alg, hex) => "@"@ + alg@ + ":"@ + hex@,
    }
}

/// The reference a selector is pulled and recorded under.
pub fn selector_reference(selector: &ReferenceSelector) -> (r: String)
    ensures
        r@ == selector_text(*selector),
{
    match selector {
        ReferenceSelector::Tag { tag, digest } => match digest {
            Some((alg, hex)) => tag.clone().concat("@").concat(alg.as_str()).concat(":").concat(hex.as_str()),
            None => {
                let r = tag.clone();
                assert(r@ =~= tag@ + Seq::<char>::empty());
                r
            },
        },
        ReferenceSelector::Digest(alg, hex) => String::from_str("@").concat(alg.as_str()).concat(":").concat(
            hex.as_str(),
        ),
    }
}

/// How the record of a pulled layer is found.
pub enum LayerRecord {
    /// Save (or update) the layer's metadata.
    Save,
    /// Use the record of this id.
    Existing(i64),
}

/// The record of a pulled layer: a downloaded layer's metadata is saved; a
/// layer that was on disk already keeps its first record, or gets one.
pub fn layer_record(downloaded: bool, first_existing_id: Option<i64>) -> (r: LayerRecord)
    ensures
        downloaded ==> r is Save,
        !downloaded ==> match first_existing_id {
            Some(id) => r == LayerRecord::Existing(id),
            None => r is Save,
        },
{
    if downloaded {
        LayerRecord::Save
    } else {
        match first_existing_id {
            Some(id) => LayerRecord::Existing(id),
            None => LayerRecord::Save,
        }
    }
}

//--------------------------------------------------------------------------------------------------
// Layer hashes
//--------------------------------------------------------------------------------------------------

/// The lowercase hexadecimal digit of a value below 16.
pub open spec fn hex_digit(v: u8) -> char {
    if v < 10 {
        ('0' as u8 + v) as char
    } else {
        ('a' as u8 + (v - 10) as u8) as char
    }
}

/// The lowercase hexadecimal text of bytes, two digits each, high half first.
pub open spec fn hex_text(bytes: Seq<u8>) -> Seq<char>
    decreases bytes.len(),
{
    if bytes.len() == 0 {
        Seq::empty()
    } else {
        hex_text(bytes.drop_last()) + seq![hex_digit(bytes.last() / 16), hex_digit(bytes.last() % 16)]
    }
}

fn hex_digit_str(v: u8) -> (r: &'static str)
    requires
        v < 16,
    ensures
        r@ == seq![hex_digit(v)],
{
    proof {
        reveal_strlit("0");
        reveal_strlit("1");
        reveal_strlit("2");
        reveal_strlit("3");
        reveal_strlit("4");
        reveal_strlit("5");
        reveal_strlit("6");
        reveal_strlit("7");
        reveal_strlit("8");
        reveal_strlit("9");
        reveal_strlit("a");
        reveal_strlit("b");
        reveal_strlit("c");
        reveal_strlit("d");
        reveal_strlit("e");
        reveal_strlit("f");
    }
    let r = if v == 0 {
        "0"
    } else if v == 1 {
        "1"
    } else if v == 2 {
        "2"
    } else if v == 3 {
        "3"
    } else if v == 4 {
        "4"
    } else if v == 5 {
        "5"
    } else if v == 6 {
        "6"
    } else if v == 7 {
        "7"
    } else if v == 8 {
        "8"
    } else if v == 9 {
        "9"
    } else if v == 10 {
        "a"
    } else if v == 11 {
        "b"
    } else if v == 12 {
        "c"
    } else if v == 13 {
        "d"
    } else if v == 14 {
        "e"
    } else {
        "f"
    };
    assert(r@ =~= seq![hex_digit(v)]);
    r
}

/// The lowercase hexadecimal text of bytes, as `hex::encode` writes it.
pub fn hex_encode(bytes: &[u8]) -> (r: String)
    ensures
        r@ == hex_text(bytes@),
{
    let mut r = String::new();
    let mut i: usize = 0;
    while i < bytes.len()
        invariant
            i <= bytes@.len(),
            r@ == hex_text(bytes@.take(i as int)),
        decreases bytes@.len() - i,
    {
        let b = bytes[i];
        let ghost before = r@;
        r = r.concat(hex_digit_str(b / 16)).concat(hex_digit_str(b % 16));
        assert(bytes@.take(i + 1).drop_last() =~= bytes@.take(i as int));
        assert(r@ =~= before + seq![hex_digit(b / 16), hex_digit(b % 16)]);
        i = i + 1;
    }
    assert(bytes@.take(bytes@.len() as int) =~= bytes@);
    r
}

/// Check a downloaded layer's hash against the hex value of its digest; the
/// error names the reference, the digest and both hashes.
pub fn check_layer_hash(reference: &str, digest: &str, actual_hash: &[u8], expected_hex: &str) -> (r: Result<(), MicrosandboxError>)
    ensures
        r is Ok <==> hex_text(actual_hash@) == expected_hex@,
        r matches Err(e) ==> (e matches MicrosandboxError::ImageLayerDownloadFailed(m) && m@ == "("@
            + reference@ + ":"@ + digest@ + ") file hash "@ + hex_text(actual_hash@)
            + " does not match expected hash "@ + expected_hex@),
{
    let actual = hex_encode(actual_hash);
    if str_equal(actual.as_str(), expected_hex) {
        Ok(())
    } else {
        Err(
            MicrosandboxError::ImageLayerDownloadFailed(
                String::from_str("(").concat(reference).concat(":").concat(digest).concat(") file hash ").concat(
                    actual.as_str(),
                ).concat(" does not match expected hash ").concat(expected_hex),
            ),
        )
    }
}

//--------------------------------------------------------------------------------------------------
// Registry hosts
//--------------------------------------------------------------------------------------------------

/// The normal form of a registry host as written by a user, keeping
/// `index.docker.io` as it is.
pub open spec fn host_key(host: Seq<char>) -> Seq<char> {
    normal_host_keep_index(lowercased_text(trimmed_text(host)))
}

/// Normalize a registry host for credential lookups: trimmed, lowercased, without
/// scheme and without trailing slashes. `index.docker.io` is kept as it is.
pub fn normalize_registry_host(host: &str) -> (r: String)
    ensures
        r@ == host_key(host@),
        is_ascii_text(host@) ==> r@ == normal_host_keep_index(ascii_lowercase(ascii_trimmed(host@))),
{
    proof {
        if is_ascii_text(host@) {
            lemma_ascii_trimmed_is_ascii(host@);
        }
    }
    proof {
        if is_ascii_text(host@) {
            lemma_ascii_trimmed_text(host@);
        }
    }
    let lowered = std_to_lowercase(std_trim(host));
    let s = lowered.as_str();
    let stripped: &str = match strip_prefix(s, "https://") {
        Some(rest) => rest,
        None => match strip_prefix(s, "http://") {
            Some(rest) => rest,
            None => s,
        },
    };
    String::from_str(trim_end_matches_char(stripped, '/'))
}

//--------------------------------------------------------------------------------------------------
// Platform selection
//--------------------------------------------------------------------------------------------------

/// The platform that a manifest of an image index is built for.
pub struct PlatformInfo {
    /// Operating system, e.g. `linux`.
    pub os: String,
    /// CPU architecture, e.g. `amd64`.
    pub architecture: String,
}

/// A manifest listed in an image index.
pub struct IndexEntry {
    /// Digest of the manifest.
    pub digest: String,
    /// The platform of the manifest, if the index states one.
    pub platform: Option<PlatformInfo>,
    /// The manifest is an attestation (it carries the docker reference type annotation).
    pub attestation: bool,
}

/// The entry is for the given OS and architecture, and no attestation.
pub open spec fn matches_os_arch(e: IndexEntry, os: Seq<char>, arch: Seq<char>) -> bool {
    &&& e.platform matches Some(p) && p.os@ == os && p.architecture@ == arch
    &&& !e.attestation
}

/// The entry is for the given architecture, and no attestation.
pub open spec fn matches_arch(e: IndexEntry, arch: Seq<char>) -> bool {
    &&& e.platform matches Some(p) && p.architecture@ == arch
    &&& !e.attestation
}

/// The digest of the first entry that matches OS and architecture; failing that,
/// of the first entry that matches the architecture; failing that, none.
pub open spec fn platform_digest(es: Seq<IndexEntry>, os: Seq<char>, arch: Seq<char>) -> Option<String> {
    if exists|i: int| 0 <= i < es.len() && matches_os_arch(es[i], os, arch) {
        let i = choose|i: int|
            0 <= i < es.len() && matches_os_arch(es[i], os, arch) && forall|j: int|
                0 <= j < i ==> !matches_os_arch(#[trigger] es[j], os, arch);
        Some(es[i].digest)
    } else if exists|i: int| 0 <= i < es.len() && matches_arch(es[i], arch) {
        let i = choose|i: int|
            0 <= i < es.len() && matches_arch(es[i], arch) && forall|j: int|
                0 <= j < i ==> !matches_arch(#[trigger] es[j], arch);
        Some(es[i].digest)
    } else {
        None
    }
}

fn entry_matches(e: &IndexEntry, os: &str, arch: &str, check_os: bool) -> (r: bool)
    ensures
        r == if check_os {
            matches_os_arch(*e, os@, arch@)
        } else {
            matches_arch(*e, arch@)
        },
{
    if e.attestation {
        return false;
    }
    match &e.platform {
        Some(p) => str_equal(p.architecture.as_str(), arch) && (!check_os || str_equal(
            p.os.as_str(),
            os,
        )),
        None => false,
    }
}

fn first_entry(manifests: &Vec<IndexEntry>, os: &str, arch: &str, check_os: bool) -> (r: Option<
    usize,
>)
    ensures
        r matches Some(i) ==> i < manifests@.len() && (if check_os {
            matches_os_arch(manifests@[i as int], os@, arch@)
        } else {
            matches_arch(manifests@[i as int], arch@)
        }) && forall|j: int|
            0 <= j < i ==> !(if check_os {
                matches_os_arch(#[trigger] manifests@[j], os@, arch@)
            } else {
                matches_arch(manifests@[j], arch@)
            }),
        r is None ==> forall|j: int|
            0 <= j < manifests@.len() ==> !(if check_os {
                matches_os_arch(#[trigger] manifests@[j], os@, arch@)
            } else {
                matches_arch(manifests@[j], arch@)
            }),
{
    let mut i: usize = 0;
    while i < manifests.len()
        invariant
            i <= manifests@.len(),
            forall|j: int|
                0 <= j < i ==> !(if check_os {
                    matches_os_arch(#[trigger] manifests@[j], os@, arch@)
                } else {
                    matches_arch(manifests@[j], arch@)
                }),
        decreases manifests@.len() - i,
    {
        if entry_matches(&manifests[i], os, arch, check_os) {
            return Some(i);
        }
        i = i + 1;
    }
    None
}

/// Filters through all image index manifests and returns the digest of the
/// manifest that matches the platform specified: first by OS and architecture,
/// then by architecture alone, skipping attestation manifests.
pub fn resolve_digest_for_platform(os: &str, arch: &str, manifests: &Vec<IndexEntry>) -> (r: Option<
    String,
>)
    ensures
        r == platform_digest(manifests@, os@, arch@),
{
    let ghost es = manifests@;
    match first_entry(manifests, os, arch, true) {
        Some(i) => {
            proof {
                let k = choose|k: int|
                    0 <= k < es.len() && matches_os_arch(es[k], os@, arch@) && forall|j: int|
                        0 <= j < k ==> !matches_os_arch(#[trigger] es[j], os@, arch@);
                assert(k == i as int) by {
                    if k < i {
                        assert(!matches_os_arch(es[k], os@, arch@));
                    }
                    if i < k {
                        assert(!matches_os_arch(es[i as int], os@, arch@));
                    }
                }
            }
            Some(manifests[i].digest.clone())
        },
        None => match first_entry(manifests, os, arch, false) {
            Some(i) => {
                proof {
                    assert(!exists|x: int| 0 <= x < es.len() && matches_os_arch(es[x], os@, arch@));
                    let k = choose|k: int|
                        0 <= k < es.len() && matches_arch(es[k], arch@) && forall|j: int|
                            0 <= j < k ==> !matches_arch(#[trigger] es[j], arch@);
                    assert(k == i as int) by {
                        if k < i {
                            assert(!matches_arch(es[k], arch@));
                        }
                        if i < k {
                            assert(!matches_arch(es[i as int], arch@));
                        }
                    }
                }
                Some(manifests[i].digest.clone())
            },
            None => None,
        },
    }
}

//--------------------------------------------------------------------------------------------------
// Layer downloads
//--------------------------------------------------------------------------------------------------

/// What to do with a layer blob, given what is already on disk.
pub enum LayerDownload {
    /// The blob is complete on disk: nothing to download.
    AlreadyComplete,
    /// Nothing usable is on disk: download from the start into a truncated file.
    Fresh,
    /// Part of the blob is on disk: resume from this byte offset, appending.
    Resume(u64),
}

/// Decides how to download a layer blob from the size of the file on disk (if
/// any) and the size the manifest expects.
pub fn plan_layer_download(current_size: Option<u64>, expected_size: u64) -> (r: LayerDownload)
    ensures
        r == (match current_size {
            Some(size) if size == expected_size => LayerDownload::AlreadyComplete,
            None => LayerDownload::Fresh,
            Some(size) => if size == 0 {
                LayerDownload::Fresh
            } else {
                LayerDownload::Resume(size)
            },
        }),
{
    match current_size {
        Some(size) if size == expected_size => LayerDownload::AlreadyComplete,
        None => LayerDownload::Fresh,
        Some(size) => if size == 0 {
            LayerDownload::Fresh
        } else {
            LayerDownload::Resume(size)
        },
    }
}


/// The steps of downloading a layer blob: what is on disk decides whether to
/// fetch and from where; the hash of what was fetched decides whether to keep it.
pub enum BlobStep {
    /// The blob is complete on disk: use it as it is.
    UseExisting,
    /// Fetch the blob from this byte offset: into a new, truncated file at 0,
    /// appended to the partial file otherwise.
    Fetch(u64),
    /// Keep the downloaded blob: its hash is the one the digest names.
    Keep,
    /// Remove the downloaded file and fail with this error.
    RemoveAndFail(MicrosandboxError),
}

/// The first step of downloading a layer blob, given the size of the file on
/// disk (if any) and the size the manifest expects.
pub fn blob_step_before_fetch(current_size: Option<u64>, expected_size: u64) -> (r: BlobStep)
    ensures
        match current_size {
            Some(size) if size == expected_size => r is UseExisting,
            Some(size) if size != 0 => r == BlobStep::Fetch(size),
            _ => r == BlobStep::Fetch(0),
        },
{
    match plan_layer_download(current_size, expected_size) {
        LayerDownload::AlreadyComplete => BlobStep::UseExisting,
        LayerDownload::Fresh => BlobStep::Fetch(0),
        LayerDownload::Resume(offset) => BlobStep::Fetch(offset),
    }
}

/// The step after a layer blob was fetched, given the hash of the file: keep it
/// where the hash matches the digest's, else remove it and fail.
pub fn blob_step_after_fetch(reference: &str, digest: &str, actual_hash: &[u8], expected_hex: &str) -> (r: BlobStep)
    ensures
        hex_text(actual_hash@) == expected_hex@ ==> r is Keep,
        hex_text(actual_hash@) != expected_hex@ ==> (r matches BlobStep::RemoveAndFail(
            MicrosandboxError::ImageLayerDownloadFailed(m),
        ) && m@ == "("@ + reference@ + ":"@ + digest@ + ") file hash "@ + hex_text(actual_hash@)
            + " does not match expected hash "@ + expected_hex@),
{
    match check_layer_hash(reference, digest, actual_hash, expected_hex) {
        Ok(()) => BlobStep::Keep,
        Err(e) => BlobStep::RemoveAndFail(e),
    }
}

} // verus!
