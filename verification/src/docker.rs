//! Decisions and values around the container engine and its registry.
//!
//! The engine itself (listing images and containers, pulling, importing,
//! creating, starting) is an external collaborator reached outside the
//! library; the selection rules, configuration values and error decisions
//! it is driven by are here, on plain records of what the engine reported.

use vstd::prelude::*;

use crate::codec::u64_to_string;
use crate::error::AppError;
use crate::numfmt::dec_digits;

verus! {

/// The views of a vector of strings.
pub open spec fn strs_view(s: Seq<String>) -> Seq<Seq<char>> {
    s.map_values(|t: String| t@)
}

/// The view of an optional string.
pub open spec fn opt_str_view(o: Option<String>) -> Option<Seq<char>> {
    match o {
        Some(s) => Some(s@),
        None => None,
    }
}

/// One image the engine knows, reduced to what the rules read.
#[derive(Debug)]
pub struct ImageRecord {
    pub id: String,
    pub repo_tags: Vec<String>,
}

/// The mathematical value of an [`ImageRecord`].
pub ghost struct ImageRecordV {
    pub id: Seq<char>,
    pub repo_tags: Seq<Seq<char>>,
}

impl View for ImageRecord {
    type V = ImageRecordV;

    open spec fn view(&self) -> ImageRecordV {
        ImageRecordV { id: self.id@, repo_tags: strs_view(self.repo_tags@) }
    }
}

/// An image found by name.
#[derive(Debug)]
pub struct ImageInfo {
    pub id: String,
    pub repo_tags: Option<Vec<String>>,
}

/// One container the engine knows, reduced to what the rules read.
#[derive(Debug)]
pub struct ContainerRecord {
    pub id: Option<String>,
    pub image: Option<String>,
    pub state: Option<String>,
    pub names: Vec<String>,
}

/// The mathematical value of a [`ContainerRecord`].
pub ghost struct ContainerRecordV {
    pub id: Option<Seq<char>>,
    pub image: Option<Seq<char>>,
    pub state: Option<Seq<char>>,
    pub names: Seq<Seq<char>>,
}

impl View for ContainerRecord {
    type V = ContainerRecordV;

    open spec fn view(&self) -> ContainerRecordV {
        ContainerRecordV {
            id: opt_str_view(self.id),
            image: opt_str_view(self.image),
            state: opt_str_view(self.state),
            names: strs_view(self.names@),
        }
    }
}

/// A container found by name.
#[derive(Debug)]
pub struct ContainerInfo {
    pub id: Option<String>,
    pub name: Option<String>,
    pub image: Option<String>,
    pub state: Option<String>,
}

/// Whether this image carries exactly the requested tag.
pub open spec fn image_matches(r: ImageRecordV, name: Seq<char>) -> bool {
    exists|k: int| 0 <= k < r.repo_tags.len() && r.repo_tags[k] == name
}

pub open spec fn images_view(s: Seq<ImageRecord>) -> Seq<ImageRecordV> {
    s.map_values(|r: ImageRecord| r@)
}

/// The first image carrying the requested tag, from position `i` on.
pub open spec fn first_image_match(s: Seq<ImageRecordV>, name: Seq<char>, i: int) -> Option<int>
    decreases s.len() - i when 0 <= i <= s.len()
{
    if i >= s.len() {
        None
    } else if image_matches(s[i], name) {
        Some(i)
    } else {
        first_image_match(s, name, i + 1)
    }
}

fn clone_strings(v: &Vec<String>) -> (r: Vec<String>)
    ensures
        r@ == v@,
{
    let mut r: Vec<String> = Vec::new();
    let mut k: usize = 0;
    while k < v.len()
        invariant
            k <= v@.len(),
            r@ == v@.subrange(0, k as int),
        decreases v@.len() - k,
    {
        r.push(v[k].clone());
        proof {
            assert(v@.subrange(0, k + 1) =~= v@.subrange(0, k as int).push(v@[k as int]));
        }
        k = k + 1;
    }
    proof {
        assert(v@.subrange(0, v@.len() as int) =~= v@);
    }
    r
}

fn clone_opt_string(o: &Option<String>) -> (r: Option<String>)
    ensures
        r == *o,
{
    match o {
        Some(s) => Some(s.clone()),
        None => None,
    }
}

fn vec_contains_str(tags: &Vec<String>, name: &String) -> (r: bool)
    ensures
        r == exists|k: int| 0 <= k < tags@.len() && #[trigger] strs_view(tags@)[k] == name@,
{
    let ghost tv = strs_view(tags@);
    let mut k: usize = 0;
    while k < tags.len()
        invariant
            k <= tags@.len(),
            tv == strs_view(tags@),
            forall|m: int| 0 <= m < k ==> tv[m] != name@,
        decreases tags@.len() - k,
    {
        if tags[k].eq(name) {
            proof {
                assert(tv[k as int] == name@);
            }
            return true;
        }
        k = k + 1;
    }
    false
}

/// The image carrying exactly the requested tag, if the engine listed one:
/// the first such image, its tags handed back with it.
pub fn find_image(images: &Vec<ImageRecord>, image_name: &str) -> (r: Option<ImageInfo>)
    ensures
        match first_image_match(images_view(images@), image_name@, 0) {
            Some(k) => r matches Some(info) && info.id@ == images_view(images@)[k].id && (
            info.repo_tags matches Some(t) && strs_view(t@) == images_view(images@)[k].repo_tags),
            None => r is None,
        },
{
    let ghost ivs = images_view(images@);
    let name = String::from_str(image_name);
    let mut k: usize = 0;
    while k < images.len()
        invariant
            k <= images@.len(),
            ivs == images_view(images@),
            name@ == image_name@,
            first_image_match(ivs, image_name@, 0) == first_image_match(ivs, image_name@, k as int),
        decreases images@.len() - k,
    {
        proof {
            assert(ivs[k as int] == images@[k as int]@);
        }
        if vec_contains_str(&images[k].repo_tags, &name) {
            proof {
                let tags = images@[k as int].repo_tags@;
                assert(ivs[k as int].repo_tags == strs_view(tags));
                let m0 = choose|m: int| 0 <= m < tags.len() && #[trigger] strs_view(tags)[m]
                    == name@;
                assert(ivs[k as int].repo_tags[m0] == image_name@);
                assert(image_matches(ivs[k as int], image_name@));
                assert(first_image_match(ivs, image_name@, k as int) == Some(k as int));
            }
            let id = images[k].id.clone();
            let repo_tags = clone_strings(&images[k].repo_tags);
            return Some(ImageInfo { id, repo_tags: Some(repo_tags) });
        }
        proof {
            assert(!image_matches(ivs[k as int], image_name@));
        }
        k = k + 1;
    }
    None
}

/// Whether this container is listed under `/name` — the engine prefixes
/// a slash to every container name it reports.
pub open spec fn container_matches(names: Seq<Seq<char>>, name: Seq<char>) -> bool {
    exists|k: int| 0 <= k < names.len() && names[k] == ("/")@ + name
}

pub open spec fn containers_view(s: Seq<ContainerRecord>) -> Seq<ContainerRecordV> {
    s.map_values(|r: ContainerRecord| r@)
}

/// The first container listed under `/name`, from position `i` on.
pub open spec fn first_container_match(s: Seq<ContainerRecordV>, name: Seq<char>, i: int) -> Option<
    int,
>
    decreases s.len() - i when 0 <= i <= s.len()
{
    if i >= s.len() {
        None
    } else if container_matches(s[i].names, name) {
        Some(i)
    } else {
        first_container_match(s, name, i + 1)
    }
}

/// The container listed under the requested name, if any: the first one
/// whose name list holds `/name`, reported back under the queried name.
pub fn find_container(containers: &Vec<ContainerRecord>, container_name: &str) -> (r: Option<
    ContainerInfo,
>)
    ensures
        match first_container_match(containers_view(containers@), container_name@, 0) {
            Some(k) => r matches Some(info) && ({
                let c = containers_view(containers@)[k];
                &&& opt_str_view(info.id) == c.id
                &&& opt_str_view(info.image) == c.image
                &&& opt_str_view(info.state) == c.state
                &&& info.name matches Some(n) && n@ == container_name@
            }),
            None => r is None,
        },
{
    let ghost cvs = containers_view(containers@);
    let target = String::from_str("/").concat(container_name);
    let mut k: usize = 0;
    while k < containers.len()
        invariant
            k <= containers@.len(),
            cvs == containers_view(containers@),
            target@ == ("/")@ + container_name@,
            first_container_match(cvs, container_name@, 0) == first_container_match(
                cvs,
                container_name@,
                k as int,
            ),
        decreases containers@.len() - k,
    {
        proof {
            assert(cvs[k as int] == containers@[k as int]@);
        }
        if vec_contains_str(&containers[k].names, &target) {
            proof {
                let names = containers@[k as int].names@;
                assert(cvs[k as int].names == strs_view(names));
                let m0 = choose|m: int| 0 <= m < names.len() && #[trigger] strs_view(names)[m]
                    == target@;
                assert(cvs[k as int].names[m0] == ("/")@ + container_name@);
                assert(container_matches(cvs[k as int].names, container_name@));
                assert(first_container_match(cvs, container_name@, k as int) == Some(k as int));
            }
            return Some(
                ContainerInfo {
                    id: clone_opt_string(&containers[k].id),
                    name: Some(String::from_str(container_name)),
                    image: clone_opt_string(&containers[k].image),
                    state: clone_opt_string(&containers[k].state),
                },
            );
        }
        proof {
            assert(!container_matches(cvs[k as int].names, container_name@));
        }
        k = k + 1;
    }
    None
}

/// Whether a looked-up container counts as existing: it was found and the
/// engine reported a state for it.
pub fn container_exists(c: &Option<ContainerInfo>) -> (r: bool)
    ensures
        r == (c matches Some(ci) && ci.state is Some),
{
    match c {
        Some(ci) => ci.state.is_some(),
        None => false,
    }
}

/// How to bring the registry's image into the engine, decided before
/// anything is created: a present image stands; a missing one is loaded
/// from the given file when one was supplied, else pulled by name.
#[derive(Debug)]
pub enum ImageStep {
    AlreadyPresent,
    LoadFromFile(String),
    Pull,
}

/// What the registry bring-up owes next: nothing when the container
/// already exists, else the image step followed by create-and-start.
#[derive(Debug)]
pub enum RegistryPlan {
    AlreadyRunning,
    Start(ImageStep),
}

/// The bring-up decision for the registry container.
pub fn registry_plan(
    container_present: bool,
    image_present: bool,
    image_file: Option<String>,
) -> (r: RegistryPlan)
    ensures
        container_present ==> r matches RegistryPlan::AlreadyRunning,
        !container_present && image_present ==> (r matches RegistryPlan::Start(s) && s matches
            ImageStep::AlreadyPresent),
        !container_present && !image_present ==> (match image_file {
            Some(f) => r matches RegistryPlan::Start(s) && (s matches ImageStep::LoadFromFile(g)
                && g@ == f@),
            None => r matches RegistryPlan::Start(s) && s matches ImageStep::Pull,
        }),
{
    if container_present {
        RegistryPlan::AlreadyRunning
    } else if image_present {
        RegistryPlan::Start(ImageStep::AlreadyPresent)
    } else {
        match image_file {
            Some(f) => RegistryPlan::Start(ImageStep::LoadFromFile(f)),
            None => RegistryPlan::Start(ImageStep::Pull),
        }
    }
}

/// The environment the registry container runs with: serve on port 5000
/// with the mounted certificate and key.
pub fn registry_env() -> (r: Vec<String>)
    ensures
        r@.len() == 3,
        r@[0]@ == ("REGISTRY_HTTP_ADDR=0.0.0.0:5000")@,
        r@[1]@ == ("REGISTRY_HTTP_TLS_CERTIFICATE=/certs/registry.crt")@,
        r@[2]@ == ("REGISTRY_HTTP_TLS_KEY=/certs/registry.key")@,
{
    let mut r: Vec<String> = Vec::new();
    r.push(String::from_str("REGISTRY_HTTP_ADDR=0.0.0.0:5000"));
    r.push(String::from_str("REGISTRY_HTTP_TLS_CERTIFICATE=/certs/registry.crt"));
    r.push(String::from_str("REGISTRY_HTTP_TLS_KEY=/certs/registry.key"));
    r
}

/// The bind mounts the registry container runs with: its storage, and the
/// certificate directory at `/certs`.
pub fn registry_binds(cert_dir: &str) -> (r: Vec<String>)
    ensures
        r@.len() == 2,
        r@[0]@ == ("/var/lib/registry:/var/lib/registry")@,
        r@[1]@ == cert_dir@ + (":/certs")@,
{
    let mut r: Vec<String> = Vec::new();
    r.push(String::from_str("/var/lib/registry:/var/lib/registry"));
    r.push(String::from_str(cert_dir).concat(":/certs"));
    r
}

/// The registry's port mapping: container port `5000/tcp`, bound on every
/// interface of the host at the requested port.
pub fn registry_port_binding(port: u16) -> (r: (String, String, String))
    ensures
        r.0@ == ("5000/tcp")@,
        r.1@ == ("0.0.0.0")@,
        r.2@ == dec_digits(port as nat),
{
    (String::from_str("5000/tcp"), String::from_str("0.0.0.0"), u64_to_string(port as u64))
}

/// An absolute certificate directory stands; a relative one is taken under
/// the current working directory.
pub fn resolve_cert_dir(cert_dir: &str, current_dir: &str) -> (r: String)
    ensures
        cert_dir@.len() > 0 && cert_dir@[0] == '/' ==> r@ == cert_dir@,
        !(cert_dir@.len() > 0 && cert_dir@[0] == '/') ==> r@ == current_dir@ + ("/")@ + cert_dir@,
{
    let n = cert_dir.unicode_len();
    if n > 0 && cert_dir.get_char(0) == '/' {
        String::from_str(cert_dir)
    } else {
        String::from_str(current_dir).concat("/").concat(cert_dir)
    }
}

/// Where the certificate and key files live under a certificate directory.
pub fn cert_paths(cert_dir: &str) -> (r: (String, String))
    ensures
        r.0@ == cert_dir@ + ("/registry.crt")@,
        r.1@ == cert_dir@ + ("/registry.key")@,
{
    (
        String::from_str(cert_dir).concat("/registry.crt"),
        String::from_str(cert_dir).concat("/registry.key"),
    )
}

/// Whether a failed engine connection is worth one repair attempt: only an
/// engine answer of 500 means the service is down and may be started.
pub fn should_start_engine_service(status_code: u16) -> (r: bool)
    ensures
        r == (status_code == 500),
{
    status_code == 500
}

/// How the registry container is brought up.
#[derive(Debug)]
pub struct RegistryInitArgs {
    pub name: String,
    pub image: String,
    pub image_file: Option<String>,
    pub port: u16,
    pub cert_dir: String,
}

/// One stored registry row.
#[derive(Debug)]
pub struct Registry {
    pub id: i64,
    pub name: String,
    pub host: String,
    pub port: i64,
    pub username: Option<String>,
    pub password: Option<String>,
    pub cert_file: Option<String>,
    pub key_file: Option<String>,
    pub status: Option<String>,
    pub created_at: i64,
    pub updated_at: i64,
}

impl Registry {
    /// A fresh row, not yet stored: no id, no credentials, stamped with
    /// the caller's clock reading.
    pub fn new(name: String, host: String, port: i64, now: i64) -> (r: Self)
        ensures
            r.id == 0,
            r.name == name,
            r.host == host,
            r.port == port,
            r.username is None,
            r.password is None,
            r.cert_file is None,
            r.key_file is None,
            r.status is None,
            r.created_at == now,
            r.updated_at == now,
    {
        Registry {
            id: 0,
            name,
            host,
            port,
            username: None,
            password: None,
            cert_file: None,
            key_file: None,
            status: None,
            created_at: now,
            updated_at: now,
        }
    }
}

/// A request to create a stored registry.
#[derive(Debug)]
pub struct CreateRegistryInput {
    pub name: String,
    pub host: String,
    pub port: i64,
    pub ssl: Option<SslType>,
    pub auth: Option<Auth>,
}

#[derive(Debug)]
pub enum SslType {
    SelfSigned(SelfSignedSsl),
    Provided(ProvidedSsl),
}

#[derive(Debug)]
pub struct SelfSignedSsl {
    pub cert_dir: String,
}

#[derive(Debug)]
pub struct ProvidedSsl {
    pub cert_file: String,
    pub key_file: String,
}

#[derive(Debug)]
pub struct Auth {
    pub username: String,
    pub password: String,
}

/// Accepts a creation request only when name and host are non-empty, the
/// port is non-zero, and the name is not already taken; each refusal says
/// why.
pub fn validate_create_registry_input(input: &CreateRegistryInput, name_taken: bool) -> (r: Result<
    (),
    AppError,
>)
    ensures
        r is Ok <==> (input.name@.len() > 0 && input.host@.len() > 0 && input.port != 0
            && !name_taken),
        input.name@.len() == 0 || input.host@.len() == 0 || input.port == 0 ==> (r matches Err(e)
            && (e matches AppError::InputParamsError(s) && s@ == (
        "name, host, port can't be empty")@)),
        (input.name@.len() > 0 && input.host@.len() > 0 && input.port != 0 && name_taken) ==> (
        r matches Err(e) && (e matches AppError::InputParamsError(s) && s@ == ("registry ")@
            + input.name@ + (" already exists")@)),
{
    if input.name.as_str().is_empty() || input.host.as_str().is_empty() || input.port == 0 {
        Err(AppError::InputParamsError(String::from_str("name, host, port can't be empty")))
    } else if name_taken {
        Err(
            AppError::InputParamsError(
                String::from_str("registry ").concat(input.name.as_str()).concat(
                    " already exists",
                ),
            ),
        )
    } else {
        Ok(())
    }
}

/// One uploaded engine package on disk.
#[derive(Debug)]
pub struct PackageInfo {
    pub index: u16,
    pub name: String,
    pub create_time: Option<u64>,
}

/// The package listing shown to callers: each file in directory order,
/// numbered from one.
pub fn package_list(entries: Vec<(String, Option<u64>)>) -> (r: Vec<PackageInfo>)
    requires
        entries@.len() <= u16::MAX,
    ensures
        r@.len() == entries@.len(),
        forall|k: int|
            0 <= k < r@.len() ==> (#[trigger] r@[k]).index as int == k + 1 && r@[k].name@
                == entries@[k].0@ && r@[k].create_time == entries@[k].1,
{
    let mut r: Vec<PackageInfo> = Vec::new();
    let mut entries = entries;
    let ghost evs = entries@;
    let mut i: usize = 0;
    while i < entries.len()
        invariant
            i <= evs.len(),
            evs.len() <= u16::MAX,
            entries@ == evs,
            r@.len() == i,
            forall|k: int|
                0 <= k < i ==> (#[trigger] r@[k]).index as int == k + 1 && r@[k].name@ == evs[k].0@
                    && r@[k].create_time == evs[k].1,
        decreases evs.len() - i,
    {
        let name = entries[i].0.clone();
        let create_time = entries[i].1;
        r.push(PackageInfo { index: (i as u16) + 1, name, create_time });
        i = i + 1;
    }
    r
}

/// The folder engine packages are kept under.
pub fn docker_pkgs_folder(base_folder: &str) -> (r: String)
    ensures
        r@ == base_folder@ + ("/docker_pkgs")@,
{
    String::from_str(base_folder).concat("/docker_pkgs")
}

/// Where one named engine package lives.
pub fn docker_package_path(base_folder: &str, package_name: &str) -> (r: String)
    ensures
        r@ == base_folder@ + ("/docker_pkgs/")@ + package_name@,
{
    String::from_str(base_folder).concat("/docker_pkgs/").concat(package_name)
}

/// A package operation goes ahead only when the package file is really
/// there; otherwise the caller answers not-found.
pub fn require_package_file(file_present: bool) -> (r: Result<(), AppError>)
    ensures
        r is Ok <==> file_present,
        !file_present ==> (r matches Err(e) && (e matches AppError::NotFound(s) && s@ == (
        "docker package file not found")@)),
{
    if file_present {
        Ok(())
    } else {
        Err(AppError::NotFound(String::from_str("docker package file not found")))
    }
}

/// The body served for a file that is not there.
pub fn not_found_body(path: &str) -> (r: String)
    ensures
        r@ == ("File not found: ")@ + path@,
{
    String::from_str("File not found: ").concat(path)
}

} // verus!
