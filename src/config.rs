use vstd::prelude::*;
use vstd::string::*;

verus! {

/// The directory name the service's files live under.
pub open spec fn application_name() -> Seq<char> {
    seq!['a', 'u', 's', 'g', 'a', 'b', 'e', 'n', 'z', 'e', 't', 't', 'e', 'l']
}

/// `name` appended to `dir` as one more path component.
pub open spec fn join_spec(dir: Seq<char>, name: Seq<char>) -> Seq<char> {
    if dir.len() == 0 {
        name
    } else if dir.last() == '/' {
        dir + name
    } else {
        dir + seq!['/'] + name
    }
}

pub open spec fn opt_view(s: Option<&str>) -> Option<Seq<char>> {
    match s {
        Some(v) => Some(v@),
        None => None,
    }
}

/// The per-user configuration directory: `$XDG_CONFIG_HOME`, else
/// `$HOME/.config`, else `~/.config`; then the application's own directory.
pub open spec fn user_config_dir_spec(xdg_config_home: Option<Seq<char>>, home: Option<Seq<char>>) -> Seq<
    char,
> {
    let base = match xdg_config_home {
        Some(x) => x,
        None => match home {
            Some(h) => join_spec(h, seq!['.', 'c', 'o', 'n', 'f', 'i', 'g']),
            None => seq!['~', '/', '.', 'c', 'o', 'n', 'f', 'i', 'g'],
        },
    };
    join_spec(base, application_name())
}

/// The directory documents are stored in: `$XDG_RUNTIME_DIR`, else `/var/lib`;
/// then the application's own directory.
pub open spec fn data_dir_spec(xdg_runtime_dir: Option<Seq<char>>) -> Seq<char> {
    let base = match xdg_runtime_dir {
        Some(x) => x,
        None => seq!['/', 'v', 'a', 'r', '/', 'l', 'i', 'b'],
    };
    join_spec(base, application_name())
}

/// The file names of the trust material.
#[derive(PartialEq, Eq, Structural, Clone, Copy, Debug)]
pub enum CertificateKind {
    ServerCert,
    ServerKey,
    ClientCa,
}

pub open spec fn kind_file_spec(kind: CertificateKind) -> Seq<char> {
    match kind {
        CertificateKind::ServerCert => seq!['s', 'e', 'r', 'v', 'e', 'r', '.', 'c', 'e', 'r'],
        CertificateKind::ServerKey => seq!['s', 'e', 'r', 'v', 'e', 'r', '.', 'k', 'e', 'y'],
        CertificateKind::ClientCa => seq!['c', 'a', '.', 'c', 'e', 'r'],
    }
}

impl CertificateKind {
    /// The file name this kind of material is looked up under.
    pub fn as_ref(&self) -> (r: &'static str)
        ensures
            r@ == kind_file_spec(*self),
    {
        proof {
            reveal_strlit("server.cer");
            reveal_strlit("server.key");
            reveal_strlit("ca.cer");
        }
        match self {
            CertificateKind::ServerCert => "server.cer",
            CertificateKind::ServerKey => "server.key",
            CertificateKind::ClientCa => "ca.cer",
        }
    }
}

/// What a configuration lookup was about.
#[derive(PartialEq, Eq, Structural, Clone, Copy, Debug)]
pub enum Kind {
    Certificate(CertificateKind),
}

impl From<CertificateKind> for Kind {
    fn from(kind: CertificateKind) -> (r: Kind)
        ensures
            r == Kind::Certificate(kind),
    {
        Kind::Certificate(kind)
    }
}

impl vstd::std_specs::convert::FromSpecImpl<CertificateKind> for Kind {
    open spec fn obeys_from_spec() -> bool {
        true
    }

    open spec fn from_spec(kind: CertificateKind) -> Kind {
        Kind::Certificate(kind)
    }
}

impl Kind {
    /// The file name the lookup was for.
    pub fn as_ref(&self) -> (r: &'static str)
        ensures
            r@ == match self {
                Kind::Certificate(k) => kind_file_spec(*k),
            },
    {
        match self {
            Kind::Certificate(k) => k.as_ref(),
        }
    }
}

/// Why the service's configuration could not be set up.
#[derive(Clone, Debug)]
pub enum Error {
    /// The material was found in neither the user's nor the system's directory.
    NotFound(Kind),
    /// The data directory exists and is not a directory.
    InvalidDataDir(String),
    /// The data directory could not be created.
    UnableToCreateDataDir(String),
    /// The listening address does not parse.
    InvalidAddres(String),
}

impl Error {
    /// A sentence describing the error.
    pub fn message(&self) -> (r: String)
        ensures
            r@ == match self {
                Error::NotFound(k) => (match k {
                    Kind::Certificate(c) => kind_file_spec(*c),
                }) + " not found"@,
                Error::InvalidDataDir(p) => p@ + " is not a dir"@,
                Error::UnableToCreateDataDir(m) => m@ + " unable to create"@,
                Error::InvalidAddres(m) => m@,
            },
    {
        proof {
            reveal_strlit(" not found");
            reveal_strlit(" is not a dir");
            reveal_strlit(" unable to create");
        }
        match self {
            Error::NotFound(k) => {
                let mut r = k.as_ref().to_owned();
                r.append(" not found");
                r
            },
            Error::InvalidDataDir(p) => {
                let mut r = p.clone();
                r.append(" is not a dir");
                r
            },
            Error::UnableToCreateDataDir(m) => {
                let mut r = m.clone();
                r.append(" unable to create");
                r
            },
            Error::InvalidAddres(m) => m.clone(),
        }
    }
}

/// `name` appended to `dir` as one more path component.
pub fn join(dir: &str, name: &str) -> (r: String)
    ensures
        r@ == join_spec(dir@, name@),
{
    let n = dir.unicode_len();
    if n == 0 {
        return name.to_owned();
    }
    let mut r = dir.to_owned();
    if dir.get_char(n - 1) != '/' {
        r.append("/");
        proof {
            reveal_strlit("/");
        }
    }
    r.append(name);
    r
}

/// The per-user configuration directory, from `XDG_CONFIG_HOME` and `HOME`
/// where they are set.
pub fn user_config_dir(xdg_config_home: Option<&str>, home: Option<&str>) -> (r: String)
    ensures
        r@ == user_config_dir_spec(opt_view(xdg_config_home), opt_view(home)),
{
    proof {
        reveal_strlit(".config");
        reveal_strlit("~/.config");
        reveal_strlit("ausgabenzettel");
    }
    let base = match xdg_config_home {
        Some(x) => x.to_owned(),
        None => match home {
            Some(h) => join(h, ".config"),
            None => "~/.config".to_owned(),
        },
    };
    join(base.as_str(), "ausgabenzettel")
}

/// The system-wide configuration directory.
pub fn system_config_dir() -> (r: String)
    ensures
        r@ == join_spec(seq!['/', 'e', 't', 'c'], application_name()),
{
    proof {
        reveal_strlit("/etc");
        reveal_strlit("ausgabenzettel");
    }
    join("/etc", "ausgabenzettel")
}

/// The directory documents are stored in, from `XDG_RUNTIME_DIR` where it is set.
pub fn data_dir(xdg_runtime_dir: Option<&str>) -> (r: String)
    ensures
        r@ == data_dir_spec(opt_view(xdg_runtime_dir)),
{
    proof {
        reveal_strlit("/var/lib");
        reveal_strlit("ausgabenzettel");
    }
    let base = match xdg_runtime_dir {
        Some(x) => x.to_owned(),
        None => "/var/lib".to_owned(),
    };
    join(base.as_str(), "ausgabenzettel")
}

/// What must happen to the data directory before the service can use it.
#[derive(PartialEq, Eq, Structural, Clone, Copy, Debug)]
pub enum DataDirAction {
    /// It is a directory already.
    UseExisting,
    /// Nothing is there: create it.
    Create,
}

/// The locations of the trust material.
pub struct Certificates {
    server_cert: String,
    server_key: String,
    client_ca: String,
}

impl Certificates {
    /// Where `kind` is found: the user's directory first, then the system's.
    pub fn check_for(user: &str, system: &str, kind: CertificateKind, user_exists: bool, system_exists: bool) -> (r:
        Result<String, Error>)
        ensures
            user_exists ==> r is Ok && r->Ok_0@ == join_spec(user@, kind_file_spec(kind)),
            !user_exists && system_exists ==> r is Ok && r->Ok_0@ == join_spec(
                system@,
                kind_file_spec(kind),
            ),
            !user_exists && !system_exists ==> r is Err && r->Err_0 == Error::NotFound(
                Kind::Certificate(kind),
            ),
    {
        if user_exists {
            return Ok(join(user, kind.as_ref()));
        }
        if system_exists {
            return Ok(join(system, kind.as_ref()));
        }
        Err(Error::NotFound(Kind::Certificate(kind)))
    }

    pub fn new(server_cert: String, server_key: String, client_ca: String) -> (r: Certificates)
        ensures
            r.server_cert()@ == server_cert@,
            r.server_key()@ == server_key@,
            r.client_ca()@ == client_ca@,
    {
        Certificates { server_cert, server_key, client_ca }
    }

    pub closed spec fn server_cert(&self) -> String {
        self.server_cert
    }

    pub closed spec fn server_key(&self) -> String {
        self.server_key
    }

    pub closed spec fn client_ca(&self) -> String {
        self.client_ca
    }

    /// The server certificate chain's location.
    pub fn server_cert_path(&self) -> (r: &str)
        ensures
            r@ == self.server_cert()@,
    {
        self.server_cert.as_str()
    }

    /// The server private key's location.
    pub fn server_key_path(&self) -> (r: &str)
        ensures
            r@ == self.server_key()@,
    {
        self.server_key.as_str()
    }

    /// The client trust bundle's location.
    pub fn client_ca_path(&self) -> (r: &str)
        ensures
            r@ == self.client_ca()@,
    {
        self.client_ca.as_str()
    }
}

/// Where the trust material and the documents are.
pub struct BasePaths {
    certificates: Certificates,
    client_data: String,
}

impl BasePaths {
    /// What to do about the data directory `path`: use it when it is a
    /// directory, create it when nothing is there, refuse anything else.
    pub fn data_dir_action(path: &str, is_dir: bool, exists: bool) -> (r: Result<DataDirAction, Error>)
        ensures
            is_dir ==> r == Ok::<DataDirAction, Error>(DataDirAction::UseExisting),
            !is_dir && !exists ==> r == Ok::<DataDirAction, Error>(DataDirAction::Create),
            !is_dir && exists ==> r is Err && r->Err_0 is InvalidDataDir && r->Err_0->InvalidDataDir_0@ == path@,
    {
        if is_dir {
            Ok(DataDirAction::UseExisting)
        } else if exists {
            Err(Error::InvalidDataDir(path.to_owned()))
        } else {
            Ok(DataDirAction::Create)
        }
    }

    pub fn new(certificates: Certificates, client_data: String) -> (r: BasePaths)
        ensures
            r.client_data()@ == client_data@,
            r.certificates() == certificates,
    {
        BasePaths { certificates, client_data }
    }

    pub closed spec fn certificates(&self) -> Certificates {
        self.certificates
    }

    pub closed spec fn client_data(&self) -> String {
        self.client_data
    }

    /// The locations of the trust material.
    pub fn certificate_paths(&self) -> (r: &Certificates)
        ensures
            *r == self.certificates(),
    {
        &self.certificates
    }

    /// The directory documents are stored in.
    pub fn client_data_path(&self) -> (r: &str)
        ensures
            r@ == self.client_data()@,
    {
        self.client_data.as_str()
    }
}

} // verus!
