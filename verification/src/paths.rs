//! Where the runtime keeps its files, and the names of its pipes.
use crate::text::{joined, replace_char, replaced};
use vstd::prelude::*;

verus! {

/// A path: a base and the names that follow it, to be joined as the platform joins them.
#[derive(Clone, Debug)]
pub struct AppPath {
    pub base: String,
    pub names: Vec<&'static str>,
}

/// The mathematical model of an [`AppPath`].
#[verifier::ext_equal]
pub struct PathModel {
    pub base: Seq<char>,
    pub names: Seq<Seq<char>>,
}

impl View for AppPath {
    type V = PathModel;

    open spec fn view(&self) -> PathModel {
        PathModel { base: self.base@, names: self.names@.map_values(|name: &str| name@) }
    }
}

impl PathModel {
    pub open spec fn child(self, name: Seq<char>) -> PathModel {
        PathModel { base: self.base, names: self.names.push(name) }
    }
}

/// The path that has no names after its base.
pub open spec fn bare(base: Seq<char>) -> PathModel {
    PathModel { base, names: Seq::empty() }
}

impl AppPath {
    pub fn new(base: String) -> (path: AppPath)
        ensures
            path@ == bare(base@),
    {
        let path = AppPath { base, names: Vec::new() };
        assert(path@ =~= bare(base@));
        path
    }

    /// The entry `name` of this directory.
    pub fn child(&self, name: &'static str) -> (path: AppPath)
        ensures
            path@ == self@.child(name@),
    {
        let mut names: Vec<&'static str> = Vec::new();
        let mut at: usize = 0;
        while at < self.names.len()
            invariant
                at <= self.names@.len(),
                names@ == self.names@.take(at as int),
            decreases self.names.len() - at,
        {
            names.push(self.names[at]);
            at = at + 1;
            assert(names@ =~= self.names@.take(at as int));
        }
        names.push(name);
        let path = AppPath { base: self.base.clone(), names };
        assert(path@ =~= self@.child(name@));
        path
    }
}

/// The environment variables that name the place of the files, as far as they are set, and the
/// directory for temporary files.
#[derive(Debug)]
pub struct Environment {
    pub gnirehtet_vd_home: Option<String>,
    pub local_app_data: Option<String>,
    pub xdg_state_home: Option<String>,
    pub home: Option<String>,
    pub temp_dir: String,
}

/// Where the runtime keeps its files.
#[derive(Clone, Debug)]
pub struct AppPaths {
    pub root: AppPath,
    pub logs: AppPath,
    pub status: AppPath,
    pub daemon_pid: AppPath,
    pub operation_lock: AppPath,
    pub runtime_lock: AppPath,
    pub admin_token: AppPath,
    pub admin_socket: AppPath,
}

/// The directory of the files: the one that was asked for, the one of the environment, or the
/// customary one of the platform.
pub open spec fn root_of(
    override_root: Option<String>,
    environment: Environment,
    windows: bool,
) -> PathModel {
    if override_root is Some {
        bare(override_root->0@)
    } else if environment.gnirehtet_vd_home is Some {
        bare(environment.gnirehtet_vd_home->0@)
    } else if windows {
        bare(
            match environment.local_app_data {
                Some(directory) => directory@,
                None => environment.temp_dir@,
            },
        ).child("GnirehtetVD"@)
    } else if environment.xdg_state_home is Some {
        bare(environment.xdg_state_home->0@).child("gnirehtet-vd"@)
    } else if environment.home is Some {
        bare(environment.home->0@).child(".local/state"@).child("gnirehtet-vd"@)
    } else {
        bare(environment.temp_dir@).child("gnirehtet-vd"@)
    }
}

impl AppPaths {
    /// Finds out where the files are to be.
    pub fn discover(
        override_root: Option<String>,
        environment: Environment,
        windows: bool,
    ) -> (paths: AppPaths)
        ensures
            ({
                let root = root_of(override_root, environment, windows);
                &&& paths.root@ == root
                &&& paths.logs@ == root.child("logs"@)
                &&& paths.status@ == root.child("status.json"@)
                &&& paths.daemon_pid@ == root.child("daemon.pid"@)
                &&& paths.operation_lock@ == root.child("operation.lock"@)
                &&& paths.runtime_lock@ == root.child("runtime.lock"@)
                &&& paths.admin_token@ == root.child("admin.token"@)
                &&& paths.admin_socket@ == root.child("admin.sock"@)
            }),
    {
        let root = if let Some(root) = override_root {
            AppPath::new(root)
        } else if let Some(root) = environment.gnirehtet_vd_home {
            AppPath::new(root)
        } else if windows {
            let base = match environment.local_app_data {
                Some(directory) => directory,
                None => environment.temp_dir,
            };
            AppPath::new(base).child("GnirehtetVD")
        } else {
            let base = if let Some(directory) = environment.xdg_state_home {
                AppPath::new(directory)
            } else if let Some(home) = environment.home {
                AppPath::new(home).child(".local/state")
            } else {
                AppPath::new(environment.temp_dir)
            };
            base.child("gnirehtet-vd")
        };
        AppPaths {
            logs: root.child("logs"),
            status: root.child("status.json"),
            daemon_pid: root.child("daemon.pid"),
            operation_lock: root.child("operation.lock"),
            runtime_lock: root.child("runtime.lock"),
            admin_token: root.child("admin.token"),
            admin_socket: root.child("admin.sock"),
            root,
        }
    }
}

/// The name of the admin pipe of the user with this security identifier.
pub open spec fn admin_pipe(sid: Seq<char>) -> Seq<char> {
    "\\\\.\\pipe\\gnirehtet-vd-"@ + replace_char(sid, '-', "_"@)
}

/// The name of the command pipe of the user with this security identifier.
pub open spec fn broker_pipe(sid: Seq<char>) -> Seq<char> {
    "\\\\.\\pipe\\gnirehtet-vd-broker-"@ + replace_char(sid, '-', "_"@)
}

/// The name of the pipe on which the daemon takes authenticated requests.
pub fn windows_admin_pipe_name(sid: &str) -> (name: String)
    ensures
        name@ == admin_pipe(sid@),
{
    let name = joined("\\\\.\\pipe\\gnirehtet-vd-", replaced(sid, '-', "_").as_str(), "");
    proof {
        reveal_strlit("");
        assert(name@ =~= admin_pipe(sid@));
    }
    name
}

/// The name of the pipe on which the product takes commands. It is a lane of its own, so that
/// commands neither weaken nor overload the pipe of the daemon.
pub fn windows_broker_pipe_name(sid: &str) -> (name: String)
    ensures
        name@ == broker_pipe(sid@),
{
    let name = joined("\\\\.\\pipe\\gnirehtet-vd-broker-", replaced(sid, '-', "_").as_str(), "");
    proof {
        reveal_strlit("");
        assert(name@ =~= broker_pipe(sid@));
    }
    name
}

/// The access rule of a pipe that this user alone may use.
pub fn user_only_pipe_sddl(sid: &str) -> (sddl: String)
    ensures
        sddl@ == "D:P(A;;GA;;;"@ + sid@ + ")"@,
{
    joined("D:P(A;;GA;;;", sid, ")")
}

proof fn lemma_replaced_is_gone(s: Seq<char>, c: char, with: Seq<char>)
    requires
        !with.contains(c),
    ensures
        !replace_char(s, c, with).contains(c),
    decreases s.len(),
{
    if s.len() > 0 {
        lemma_replaced_is_gone(s.drop_last(), c, with);
    }
}

/// The pipe of the daemon and the pipe for commands never share a name, whoever uses them.
pub proof fn broker_pipe_is_a_lane_of_its_own(admin_sid: Seq<char>, broker_sid: Seq<char>)
    ensures
        admin_pipe(admin_sid) != broker_pipe(broker_sid),
{
    reveal_strlit("\\\\.\\pipe\\gnirehtet-vd-");
    reveal_strlit("\\\\.\\pipe\\gnirehtet-vd-broker-");
    reveal_strlit("_");
    lemma_replaced_is_gone(admin_sid, '-', "_"@);
    let prefix = "\\\\.\\pipe\\gnirehtet-vd-"@;
    let tail = replace_char(admin_sid, '-', "_"@);
    assert(prefix.len() == 22);
    if admin_pipe(admin_sid) == broker_pipe(broker_sid) {
        let broker = "\\\\.\\pipe\\gnirehtet-vd-broker-"@;
        assert(broker.len() == 29 && broker[28] == '-');
        assert(broker_pipe(broker_sid)[28] == broker[28]);
        assert((prefix + tail).len() >= 29);
        assert((prefix + tail)[28] == tail[6]);
        assert(tail.contains('-'));
    }
}

proof fn lemma_replaced_letter(s: Seq<char>, c: char, with: char)
    ensures
        replace_char(s, c, seq![with]).len() == s.len(),
        forall|i: int|
            0 <= i < s.len() ==> #[trigger] replace_char(s, c, seq![with])[i] == if s[i] == c {
                with
            } else {
                s[i]
            },
    decreases s.len(),
{
    if s.len() > 0 {
        lemma_replaced_letter(s.drop_last(), c, with);
    }
}

proof fn lemma_replacing_tells_apart(a: Seq<char>, b: Seq<char>)
    requires
        !a.contains('_'),
        !b.contains('_'),
        replace_char(a, '-', "_"@) == replace_char(b, '-', "_"@),
    ensures
        a == b,
{
    reveal_strlit("_");
    assert("_"@ =~= seq!['_']);
    lemma_replaced_letter(a, '-', '_');
    lemma_replaced_letter(b, '-', '_');
    let name = replace_char(a, '-', "_"@);
    assert forall|i: int| 0 <= i < a.len() implies a[i] == b[i] by {
        assert(a.contains(a[i]) && b.contains(b[i]));
        assert(name[i] == replace_char(b, '-', "_"@)[i]);
    }
    assert(a =~= b);
}

/// Users with different security identifiers get different pipes, on either lane. A security
/// identifier holds no underscore.
pub proof fn users_do_not_share_pipes(a: Seq<char>, b: Seq<char>)
    requires
        !a.contains('_'),
        !b.contains('_'),
        a != b,
    ensures
        admin_pipe(a) != admin_pipe(b),
        broker_pipe(a) != broker_pipe(b),
{
    let admin = "\\\\.\\pipe\\gnirehtet-vd-"@;
    let broker = "\\\\.\\pipe\\gnirehtet-vd-broker-"@;
    let (first, second) = (replace_char(a, '-', "_"@), replace_char(b, '-', "_"@));
    if admin_pipe(a) == admin_pipe(b) {
        assert(first =~= (admin + first).skip(admin.len() as int));
        assert(second =~= (admin + second).skip(admin.len() as int));
        lemma_replacing_tells_apart(a, b);
    }
    if broker_pipe(a) == broker_pipe(b) {
        assert(first =~= (broker + first).skip(broker.len() as int));
        assert(second =~= (broker + second).skip(broker.len() as int));
        lemma_replacing_tells_apart(a, b);
    }
}

/// Where the files are: at the place that was asked for, or else at the place of the environment, as
/// they are given; without either, in a directory of this product's own name below the customary
/// place of the platform.
pub proof fn files_have_their_place(
    override_root: Option<String>,
    environment: Environment,
    windows: bool,
)
    ensures
        ({
            let root = root_of(override_root, environment, windows);
            let own = override_root is None && environment.gnirehtet_vd_home is None;
            &&& override_root matches Some(asked) ==> root.base == asked@ && root.names.len() == 0
            &&& override_root is None ==> (environment.gnirehtet_vd_home matches Some(home)
                ==> root.base == home@ && root.names.len() == 0)
            &&& own && windows ==> root.names == seq!["GnirehtetVD"@]
            &&& own && !windows ==> root.names.len() > 0 && root.names.last() == "gnirehtet-vd"@
            &&& own && windows ==> root.base == (match environment.local_app_data {
                Some(directory) => directory@,
                None => environment.temp_dir@,
            })
            &&& own && !windows ==> root.base == (match (
                environment.xdg_state_home,
                environment.home,
            ) {
                (Some(directory), _) => directory@,
                (None, Some(home)) => home@,
                (None, None) => environment.temp_dir@,
            })
            &&& own && !windows && environment.xdg_state_home is None && environment.home is Some
                ==> root.names == seq![".local/state"@, "gnirehtet-vd"@]
            &&& own && !windows && (environment.xdg_state_home is Some || environment.home is None)
                ==> root.names == seq!["gnirehtet-vd"@]
        }),
{
    let root = root_of(override_root, environment, windows);
    assert(Seq::<Seq<char>>::empty().push("GnirehtetVD"@) =~= seq!["GnirehtetVD"@]);
    assert(Seq::<Seq<char>>::empty().push("gnirehtet-vd"@) =~= seq!["gnirehtet-vd"@]);
    assert(Seq::<Seq<char>>::empty().push(".local/state"@).push("gnirehtet-vd"@) =~= seq![
        ".local/state"@,
        "gnirehtet-vd"@,
    ]);
}

/// An entry of a directory lies right below it: the same base, and one name more.
pub proof fn entry_lies_below_its_directory(directory: PathModel, name: Seq<char>)
    ensures
        directory.child(name).base == directory.base,
        directory.child(name).names.len() == directory.names.len() + 1,
        directory.child(name).names.last() == name,
        directory.child(name).names.drop_last() == directory.names,
{
    assert(directory.child(name).names.drop_last() =~= directory.names);
}

/// The pipes of a user have the names of their lanes, followed by the identifier of the user with
/// each hyphen made an underscore.
pub proof fn pipes_are_named_after_their_user(sid: Seq<char>, i: int)
    requires
        0 <= i < sid.len(),
    ensures
        admin_pipe(sid).len() == 22 + sid.len(),
        broker_pipe(sid).len() == 29 + sid.len(),
        admin_pipe(sid).take(22) == "\\\\.\\pipe\\gnirehtet-vd-"@,
        broker_pipe(sid).take(29) == "\\\\.\\pipe\\gnirehtet-vd-broker-"@,
        admin_pipe(sid)[22 + i] == if sid[i] == '-' {
            '_'
        } else {
            sid[i]
        },
        broker_pipe(sid)[29 + i] == admin_pipe(sid)[22 + i],
{
    reveal_strlit("\\\\.\\pipe\\gnirehtet-vd-");
    reveal_strlit("\\\\.\\pipe\\gnirehtet-vd-broker-");
    reveal_strlit("_");
    assert("_"@ =~= seq!['_']);
    lemma_replaced_letter(sid, '-', '_');
    assert(admin_pipe(sid).take(22) =~= "\\\\.\\pipe\\gnirehtet-vd-"@);
    assert(broker_pipe(sid).take(29) =~= "\\\\.\\pipe\\gnirehtet-vd-broker-"@);
}

} // verus!
