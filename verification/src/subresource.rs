//! Subresource requests built from a dynamically scoped resource: logs,
//! scale, status, and the `exec`/`attach` WebSocket upgrades.

use vstd::prelude::*;
use vstd::string::StringSliceAdditionalSpecFns;

verus! {

use crate::discovery::{ApiResource, ResourceType};
use crate::request::{
    int_dec_bytes, lemma_seq_add_empty, lemma_seq_assoc, spec_pair, url_path, url_path_of,
    utf8_bytes, HttpRequest, Method, PatchDocument, QueryBuilder,
};

/// A resource bound to an optional namespace, from which subresource URLs
/// are built.
#[derive(Debug, Clone)]
pub struct Resource {
    /// The resource's type information.
    pub resource: ApiResource,
    /// The namespace requests are bound to, when the resource is used
    /// namespaced.
    pub namespace: Option<String>,
}

/// The namespace view of a bound resource.
pub open spec fn spec_bound_namespace(r: Resource) -> Option<Seq<char>> {
    match r.namespace {
        Some(ns) => Some(ns@),
        None => None,
    }
}

/// The collection URL of a bound resource.
pub open spec fn spec_make_url(r: Resource) -> Seq<char> {
    url_path_of(r.resource.group@, r.resource.version@, r.resource.plural@, spec_bound_namespace(r))
}

impl Resource {
    /// A resource bound to a namespace.
    pub fn namespaced<K: ResourceType>(dt: &K::DynamicType, namespace: &str) -> (r: Resource)
        ensures
            r.resource.group@ == K::spec_group(dt),
            r.resource.version@ == K::spec_version(dt),
            r.resource.plural@ == K::spec_plural(dt),
            r.namespace matches Some(ns) && ns@ == namespace@,
    {
        Resource { resource: ApiResource::erase::<K>(dt), namespace: Some(namespace.to_owned()) }
    }

    /// A resource used cluster-wide.
    pub fn all<K: ResourceType>(dt: &K::DynamicType) -> (r: Resource)
        ensures
            r.resource.group@ == K::spec_group(dt),
            r.resource.version@ == K::spec_version(dt),
            r.resource.plural@ == K::spec_plural(dt),
            r.namespace is None,
    {
        Resource { resource: ApiResource::erase::<K>(dt), namespace: None }
    }

    /// A resource from an explicit descriptor and optional namespace.
    pub fn with_resource(resource: ApiResource, namespace: Option<String>) -> (r: Resource)
        ensures
            r.resource == resource,
            r.namespace == namespace,
    {
        Resource { resource, namespace }
    }

    /// The collection URL of this resource.
    pub fn make_url(&self) -> (r: String)
        ensures
            r@ == spec_make_url(*self),
    {
        let ns = match &self.namespace {
            Some(ns) => Some(ns.as_str()),
            None => None,
        };
        url_path(&self.resource, ns)
    }
}

/// Parameters for fetching logs.
#[derive(Clone, Debug)]
pub struct LogParams {
    /// The container to stream logs for; defaults to the only container of
    /// the pod.
    pub container: Option<String>,
    /// Follow the log stream.
    pub follow: bool,
    /// Read at most this many bytes, possibly cutting the final line.
    pub limit_bytes: Option<i64>,
    /// Pretty-print the output.
    pub pretty: bool,
    /// Return the logs of the previous, terminated container.
    pub previous: bool,
    /// Show logs newer than this many seconds before now.
    pub since_seconds: Option<i64>,
    /// Show this many lines from the end of the logs.
    pub tail_lines: Option<i64>,
    /// Prefix every line with an RFC3339 timestamp.
    pub timestamps: bool,
}

impl Default for LogParams {
    /// Matches the server's defaults: nothing selected, nothing followed.
    fn default() -> (r: LogParams)
        ensures
            r.container is None,
            !r.follow,
            r.limit_bytes is None,
            !r.pretty,
            !r.previous,
            r.since_seconds is None,
            r.tail_lines is None,
            !r.timestamps,
    {
        LogParams {
            container: None,
            follow: false,
            limit_bytes: None,
            pretty: false,
            previous: false,
            since_seconds: None,
            tail_lines: None,
            timestamps: false,
        }
    }
}

/// The pair an optional string parameter appends.
pub open spec fn opt_string_pair(v: Option<String>, key: Seq<char>) -> Seq<char> {
    match v {
        Some(s) => spec_pair(true, utf8_bytes(key), utf8_bytes(s@)),
        None => Seq::<char>::empty(),
    }
}

/// The pair an optional number parameter appends.
pub open spec fn opt_i64_pair(v: Option<i64>, key: Seq<char>) -> Seq<char> {
    match v {
        Some(n) => spec_pair(true, utf8_bytes(key), int_dec_bytes(n as int)),
        None => Seq::<char>::empty(),
    }
}

/// The pair a boolean flag appends when set: the literal `true`.
pub open spec fn flag_pair(v: bool, key: Seq<char>) -> Seq<char> {
    if v {
        spec_pair(true, utf8_bytes(key), utf8_bytes("true"@))
    } else {
        Seq::<char>::empty()
    }
}

/// The query text log parameters append, in emission order.
pub open spec fn log_query(lp: LogParams) -> Seq<char> {
    opt_string_pair(lp.container, "container"@) + flag_pair(lp.follow, "follow"@) + opt_i64_pair(
        lp.limit_bytes,
        "limitBytes"@,
    ) + flag_pair(lp.pretty, "pretty"@) + flag_pair(lp.previous, "previous"@) + opt_i64_pair(
        lp.since_seconds,
        "sinceSeconds"@,
    ) + opt_i64_pair(lp.tail_lines, "tailLines"@) + flag_pair(lp.timestamps, "timestamps"@)
}

/// Appends the selection half of the log query: container, follow,
/// limitBytes, pretty.
fn append_log_selection(qp: &mut QueryBuilder, lp: &LogParams)
    requires
        old(qp)@.len() > 0,
    ensures
        final(qp)@ == old(qp)@ + opt_string_pair(lp.container, "container"@) + flag_pair(
            lp.follow,
            "follow"@,
        ) + opt_i64_pair(lp.limit_bytes, "limitBytes"@) + flag_pair(lp.pretty, "pretty"@),
{
    match &lp.container {
        Some(container) => {
            qp.append_pair("container", container.as_str());
        },
        None => {},
    }
    if lp.follow {
        qp.append_pair("follow", "true");
    }
    match lp.limit_bytes {
        Some(lb) => {
            qp.append_i64("limitBytes", lb);
        },
        None => {},
    }
    if lp.pretty {
        qp.append_pair("pretty", "true");
    }
}

/// Appends the history half of the log query: previous, sinceSeconds,
/// tailLines, timestamps.
fn append_log_history(qp: &mut QueryBuilder, lp: &LogParams)
    requires
        old(qp)@.len() > 0,
    ensures
        final(qp)@ == old(qp)@ + flag_pair(lp.previous, "previous"@) + opt_i64_pair(
            lp.since_seconds,
            "sinceSeconds"@,
        ) + opt_i64_pair(lp.tail_lines, "tailLines"@) + flag_pair(lp.timestamps, "timestamps"@),
{
    if lp.previous {
        qp.append_pair("previous", "true");
    }
    match lp.since_seconds {
        Some(ss) => {
            qp.append_i64("sinceSeconds", ss);
        },
        None => {},
    }
    match lp.tail_lines {
        Some(tl) => {
            qp.append_i64("tailLines", tl);
        },
        None => {},
    }
    if lp.timestamps {
        qp.append_pair("timestamps", "true");
    }
}

impl Resource {
    /// Builds the request for a pod's logs.
    #[verifier::rlimit(100)]
    pub fn logs(&self, name: &str, lp: &LogParams) -> (r: HttpRequest)
        ensures
            r.method == Method::Get,
            r.uri@ == spec_make_url(*self) + "/"@ + name@ + "/log?"@ + log_query(*lp),
            r.body@.len() == 0,
            r.content_type is None,
    {
        let mut base = self.make_url();
        base.append("/");
        base.append(name);
        base.append("/log?");
        proof {
            reveal_strlit("/log?");
        }
        let mut qp = QueryBuilder::new(base);
        append_log_selection(&mut qp, lp);
        append_log_history(&mut qp, lp);
        proof {
            assert(qp@ =~= spec_make_url(*self) + "/"@ + name@ + "/log?"@ + log_query(*lp));
        }
        HttpRequest { method: Method::Get, uri: qp.finish(), body: Vec::new(), content_type: None }
    }
}

/// Marker for objects whose logs can be fetched.
pub trait LoggingObject {

}

impl LoggingObject for crate::object::PartialObject {

}

/// Parameters for attaching to a running container. The server rejects an
/// attach with none of stdin, stdout and stderr redirected.
pub struct AttachParams {
    /// The container to attach to; defaults to the only container of the
    /// pod.
    pub container: Option<String>,
    /// Redirect the standard input stream of the pod to the caller.
    pub stdin: bool,
    /// Redirect the standard output stream of the pod to the caller.
    pub stdout: bool,
    /// Redirect the standard error stream of the pod to the caller.
    pub stderr: bool,
    /// Allocate a TTY.
    pub tty: bool,
}

impl Default for AttachParams {
    /// Matches the server's defaults: stdout and stderr redirected.
    fn default() -> (r: AttachParams)
        ensures
            r.container is None,
            !r.stdin,
            r.stdout,
            r.stderr,
            !r.tty,
    {
        AttachParams { container: None, stdin: false, stdout: true, stderr: true, tty: false }
    }
}

/// The stream-selection pairs attach and exec share, in emission order.
pub open spec fn stream_query(
    stdin: bool,
    stdout: bool,
    stderr: bool,
    tty: bool,
    container: Option<String>,
) -> Seq<char> {
    flag_pair(stdin, "stdin"@) + flag_pair(stdout, "stdout"@) + flag_pair(stderr, "stderr"@)
        + flag_pair(tty, "tty"@) + opt_string_pair(container, "container"@)
}

/// Appends the shared stream-selection flags: stdin, stdout, stderr, tty.
fn append_stream_flags(qp: &mut QueryBuilder, stdin: bool, stdout: bool, stderr: bool, tty: bool)
    requires
        old(qp)@.len() > 0,
    ensures
        final(qp)@ == old(qp)@ + flag_pair(stdin, "stdin"@) + flag_pair(stdout, "stdout"@)
            + flag_pair(stderr, "stderr"@) + flag_pair(tty, "tty"@),
{
    if stdin {
        qp.append_pair("stdin", "true");
    }
    if stdout {
        qp.append_pair("stdout", "true");
    }
    if stderr {
        qp.append_pair("stderr", "true");
    }
    if tty {
        qp.append_pair("tty", "true");
    }
}

impl Resource {
    /// Builds the upgradable request that attaches to a pod.
    #[verifier::rlimit(100)]
    pub fn attach(&self, name: &str, ap: &AttachParams) -> (r: HttpRequest)
        ensures
            r.method == Method::Get,
            r.uri@ == spec_make_url(*self) + "/"@ + name@ + "/attach?"@ + stream_query(
                ap.stdin,
                ap.stdout,
                ap.stderr,
                ap.tty,
                ap.container,
            ),
            r.body@.len() == 0,
            r.content_type is None,
    {
        let mut base = self.make_url();
        base.append("/");
        base.append(name);
        base.append("/attach?");
        proof {
            reveal_strlit("/attach?");
        }
        let mut qp = QueryBuilder::new(base);
        append_stream_flags(&mut qp, ap.stdin, ap.stdout, ap.stderr, ap.tty);
        match &ap.container {
            Some(container) => {
                qp.append_pair("container", container.as_str());
            },
            None => {},
        }
        proof {
            assert(qp@ =~= spec_make_url(*self) + "/"@ + name@ + "/attach?"@ + stream_query(
                ap.stdin,
                ap.stdout,
                ap.stderr,
                ap.tty,
                ap.container,
            ));
        }
        HttpRequest { method: Method::Get, uri: qp.finish(), body: Vec::new(), content_type: None }
    }
}

/// Marker for objects that can be attached to.
pub trait AttachingObject {

}

impl AttachingObject for crate::object::PartialObject {

}

/// Parameters for executing a command in a container. The server rejects an
/// exec with none of stdin, stdout and stderr redirected.
pub struct ExecParams {
    /// The container to execute in; defaults to the only container of the
    /// pod.
    pub container: Option<String>,
    /// The command and its arguments.
    pub command: Option<Vec<String>>,
    /// Redirect the standard input stream of the pod to the caller.
    pub stdin: bool,
    /// Redirect the standard output stream of the pod to the caller.
    pub stdout: bool,
    /// Redirect the standard error stream of the pod to the caller.
    pub stderr: bool,
    /// Allocate a TTY.
    pub tty: bool,
}

impl Default for ExecParams {
    /// Matches the server's defaults: stdout and stderr redirected, no
    /// command.
    fn default() -> (r: ExecParams)
        ensures
            r.container is None,
            r.command is None,
            !r.stdin,
            r.stdout,
            r.stderr,
            !r.tty,
    {
        ExecParams {
            container: None,
            command: None,
            stdin: false,
            stdout: true,
            stderr: true,
            tty: false,
        }
    }
}

/// One `command=` pair per command element, in order.
pub open spec fn command_pairs(cmds: Seq<String>) -> Seq<char>
    decreases cmds.len(),
{
    if cmds.len() == 0 {
        Seq::empty()
    } else {
        command_pairs(cmds.drop_last()) + spec_pair(
            true,
            utf8_bytes("command"@),
            utf8_bytes(cmds.last()@),
        )
    }
}

/// The query text exec parameters append.
pub open spec fn exec_query(ep: ExecParams) -> Seq<char> {
    stream_query(ep.stdin, ep.stdout, ep.stderr, ep.tty, ep.container) + (match ep.command {
        Some(cmds) => command_pairs(cmds@),
        None => Seq::<char>::empty(),
    })
}

impl Resource {
    /// Builds the upgradable request that executes a command in a pod.
    #[verifier::rlimit(100)]
    pub fn exec(&self, name: &str, ep: &ExecParams) -> (r: HttpRequest)
        ensures
            r.method == Method::Get,
            r.uri@ == spec_make_url(*self) + "/"@ + name@ + "/exec?"@ + exec_query(*ep),
            r.body@.len() == 0,
            r.content_type is None,
    {
        let mut base = self.make_url();
        base.append("/");
        base.append(name);
        base.append("/exec?");
        proof {
            reveal_strlit("/exec?");
        }
        let ghost prefix = spec_make_url(*self) + "/"@ + name@ + "/exec?"@;
        let mut qp = QueryBuilder::new(base);
        append_stream_flags(&mut qp, ep.stdin, ep.stdout, ep.stderr, ep.tty);
        match &ep.container {
            Some(container) => {
                qp.append_pair("container", container.as_str());
            },
            None => {},
        }
        proof {
            let f1 = flag_pair(ep.stdin, "stdin"@);
            let f2 = flag_pair(ep.stdout, "stdout"@);
            let f3 = flag_pair(ep.stderr, "stderr"@);
            let f4 = flag_pair(ep.tty, "tty"@);
            let c = opt_string_pair(ep.container, "container"@);
            lemma_seq_assoc(prefix, f1, f2);
            lemma_seq_assoc(prefix, f1 + f2, f3);
            lemma_seq_assoc(prefix, f1 + f2 + f3, f4);
            lemma_seq_add_empty(prefix + (f1 + f2 + f3 + f4));
            lemma_seq_assoc(prefix, f1 + f2 + f3 + f4, c);
            assert(qp@ == prefix + stream_query(ep.stdin, ep.stdout, ep.stderr, ep.tty, ep.container));
        }
        let ghost pre_cmds = qp@;
        match &ep.command {
            Some(command) => {
                let n = command.len();
                let mut i: usize = 0;
                while i < n
                    invariant
                        n == command@.len(),
                        i <= n,
                        pre_cmds.len() > 0,
                        qp@ == pre_cmds + command_pairs(command@.subrange(0, i as int)),
                    decreases n - i,
                {
                    qp.append_pair("command", command[i].as_str());
                    proof {
                        assert(command@.subrange(0, i + 1).drop_last() =~= command@.subrange(
                            0,
                            i as int,
                        ));
                        assert(command@.subrange(0, i + 1).last() == command@[i as int]);
                        lemma_seq_assoc(
                            pre_cmds,
                            command_pairs(command@.subrange(0, i as int)),
                            spec_pair(
                                true,
                                utf8_bytes("command"@),
                                utf8_bytes(command@[i as int]@),
                            ),
                        );
                    }
                    i = i + 1;
                }
                proof {
                    assert(command@.subrange(0, n as int) =~= command@);
                }
            },
            None => {},
        }
        proof {
            let st = stream_query(ep.stdin, ep.stdout, ep.stderr, ep.tty, ep.container);
            match &ep.command {
                Some(cmds) => {
                    lemma_seq_assoc(prefix, st, command_pairs(cmds@));
                },
                None => {
                    lemma_seq_add_empty(st);
                    lemma_seq_add_empty(prefix + st);
                },
            }
        }
        HttpRequest { method: Method::Get, uri: qp.finish(), body: Vec::new(), content_type: None }
    }
}

impl Resource {
    /// The URL of one object's named subresource.
    fn object_subresource_url(&self, name: &str, subresource: &str) -> (r: String)
        ensures
            r@ == spec_make_url(*self) + "/"@ + name@ + "/"@ + subresource@,
    {
        let mut url = self.make_url();
        url.append("/");
        url.append(name);
        url.append("/");
        url.append(subresource);
        url
    }

    /// Builds `GET <collection>/<name>/scale`.
    pub fn get_scale(&self, name: &str) -> (r: HttpRequest)
        ensures
            r.method == Method::Get,
            r.uri@ == spec_make_url(*self) + "/"@ + name@ + "/"@ + "scale"@,
            r.body@.len() == 0,
            r.content_type is None,
    {
        HttpRequest {
            method: Method::Get,
            uri: self.object_subresource_url(name, "scale"),
            body: Vec::new(),
            content_type: None,
        }
    }

    /// Builds the patch of the scale subresource, with the content type of
    /// the patch strategy.
    pub fn patch_scale(&self, name: &str, patch: &PatchDocument) -> (r: HttpRequest)
        requires
            !(patch is Apply),
        ensures
            r.method == Method::Patch,
            r.uri@ == spec_make_url(*self) + "/"@ + name@ + "/"@ + "scale"@,
            r.body@ == patch.spec_body(),
            r.content_type matches Some(ct) && ct@ == patch.spec_content_type(),
    {
        HttpRequest {
            method: Method::Patch,
            uri: self.object_subresource_url(name, "scale"),
            body: patch.body_bytes(),
            content_type: Some(patch.content_type().to_owned()),
        }
    }

    /// Builds `PUT <collection>/<name>/scale` with the serialized scale as
    /// the body.
    pub fn replace_scale(&self, name: &str, data: &[u8]) -> (r: HttpRequest)
        ensures
            r.method == Method::Put,
            r.uri@ == spec_make_url(*self) + "/"@ + name@ + "/"@ + "scale"@,
            r.body@ == data@,
            r.content_type is None,
    {
        HttpRequest {
            method: Method::Put,
            uri: self.object_subresource_url(name, "scale"),
            body: vstd::slice::slice_to_vec(data),
            content_type: None,
        }
    }

    /// Builds `GET <collection>/<name>/status`; the response is the whole
    /// object, metadata and spec included.
    pub fn get_status(&self, name: &str) -> (r: HttpRequest)
        ensures
            r.method == Method::Get,
            r.uri@ == spec_make_url(*self) + "/"@ + name@ + "/"@ + "status"@,
            r.body@.len() == 0,
            r.content_type is None,
    {
        HttpRequest {
            method: Method::Get,
            uri: self.object_subresource_url(name, "status"),
            body: Vec::new(),
            content_type: None,
        }
    }

    /// Builds the patch of the status subresource, with the content type of
    /// the patch strategy.
    pub fn patch_status(&self, name: &str, patch: &PatchDocument) -> (r: HttpRequest)
        requires
            !(patch is Apply),
        ensures
            r.method == Method::Patch,
            r.uri@ == spec_make_url(*self) + "/"@ + name@ + "/"@ + "status"@,
            r.body@ == patch.spec_body(),
            r.content_type matches Some(ct) && ct@ == patch.spec_content_type(),
    {
        HttpRequest {
            method: Method::Patch,
            uri: self.object_subresource_url(name, "status"),
            body: patch.body_bytes(),
            content_type: Some(patch.content_type().to_owned()),
        }
    }

    /// Builds `PUT <collection>/<name>/status` with the serialized object as
    /// the body; its `spec` is ignored by the server.
    pub fn replace_status(&self, name: &str, data: &[u8]) -> (r: HttpRequest)
        ensures
            r.method == Method::Put,
            r.uri@ == spec_make_url(*self) + "/"@ + name@ + "/"@ + "status"@,
            r.body@ == data@,
            r.content_type is None,
    {
        HttpRequest {
            method: Method::Put,
            uri: self.object_subresource_url(name, "status"),
            body: vstd::slice::slice_to_vec(data),
            content_type: None,
        }
    }
}

/// Marker for objects that commands can be executed in.
pub trait ExecutingObject {

}

impl ExecutingObject for crate::object::PartialObject {

}

} // verus!
