//! Selecting the active context, cluster and user from a kubeconfig: pure
//! lookups by name over the parsed file, with each failure naming exactly
//! what was not found.

use vstd::prelude::*;

verus! {

use crate::strutil::str_eq;

/// One context: which cluster to talk to as which user.
#[derive(Debug, Clone, PartialEq)]
pub struct Context {
    /// The name of the cluster this context selects.
    pub cluster: String,
    /// The name of the user this context authenticates as.
    pub user: String,
}

/// A context under its name.
#[derive(Debug, Clone, PartialEq)]
pub struct NamedContext {
    /// The context's name.
    pub name: String,
    /// The context itself.
    pub context: Context,
}

/// What this library reads of a cluster entry.
#[derive(Debug, Clone, PartialEq)]
pub struct Cluster {
    /// The server URL.
    pub server: String,
    /// The certificate-authority data, as the file carries it, when the
    /// entry has one.
    pub certificate_authority_data: Option<String>,
}

/// A cluster under its name.
#[derive(Debug, Clone, PartialEq)]
pub struct NamedCluster {
    /// The cluster's name.
    pub name: String,
    /// The cluster itself.
    pub cluster: Cluster,
}

/// What this library reads of a user entry.
#[derive(Debug, Clone, PartialEq)]
pub struct AuthInfo {
    /// A bearer token, when the entry carries one.
    pub token: Option<String>,
    /// The client certificate data, when the entry carries one.
    pub client_certificate_data: Option<String>,
    /// The client key data, when the entry carries one.
    pub client_key_data: Option<String>,
}

/// A user under its name.
#[derive(Debug, Clone, PartialEq)]
pub struct NamedAuthInfo {
    /// The user's name.
    pub name: String,
    /// The authentication information itself.
    pub auth_info: AuthInfo,
}

/// A parsed kubeconfig, reduced to what context selection reads.
#[derive(Debug, Clone, PartialEq)]
pub struct Kubeconfig {
    /// The name of the context selected by default.
    pub current_context: String,
    /// The named contexts.
    pub contexts: Vec<NamedContext>,
    /// The named clusters.
    pub clusters: Vec<NamedCluster>,
    /// The named users.
    pub auth_infos: Vec<NamedAuthInfo>,
}

/// Options for loading a kubeconfig: each overrides the file's own choice.
#[derive(Default, Clone, Debug)]
pub struct KubeConfigOptions {
    /// The named context to load.
    pub context: Option<String>,
    /// The cluster to load.
    pub cluster: Option<String>,
    /// The user to load.
    pub user: Option<String>,
}

/// Why the kubeconfig could not be resolved.
#[derive(Debug, PartialEq)]
pub enum ConfigError {
    /// No context of this name exists.
    LoadContext {
        /// The name that was looked for.
        context_name: String,
    },
    /// No cluster of this name exists.
    LoadClusterOfContext {
        /// The name that was looked for.
        cluster_name: String,
    },
    /// No user of this name exists.
    FindUser {
        /// The name that was looked for.
        user_name: String,
    },
}

/// The name an override selects, or the fallback.
pub open spec fn chosen_name(over: Option<&String>, fallback: Seq<char>) -> Seq<char> {
    match over {
        Some(s) => s@,
        None => fallback,
    }
}

/// The first context of the given name.
pub open spec fn find_context(cs: Seq<NamedContext>, name: Seq<char>) -> Option<Context>
    decreases cs.len(),
{
    if cs.len() == 0 {
        None
    } else if cs[0].name@ == name {
        Some(cs[0].context)
    } else {
        find_context(cs.drop_first(), name)
    }
}

/// The first cluster of the given name.
pub open spec fn find_cluster(cs: Seq<NamedCluster>, name: Seq<char>) -> Option<Cluster>
    decreases cs.len(),
{
    if cs.len() == 0 {
        None
    } else if cs[0].name@ == name {
        Some(cs[0].cluster)
    } else {
        find_cluster(cs.drop_first(), name)
    }
}

/// The last user of the given name: a later entry overrides an earlier one.
pub open spec fn find_user(us: Seq<NamedAuthInfo>, name: Seq<char>) -> Option<AuthInfo>
    decreases us.len(),
{
    if us.len() == 0 {
        None
    } else if us.last().name@ == name {
        Some(us.last().auth_info)
    } else {
        find_user(us.drop_last(), name)
    }
}

/// The loaded current context, cluster and authentication information of a
/// kubeconfig.
#[derive(Clone, Debug)]
pub struct ConfigLoader {
    /// The selected context.
    pub current_context: Context,
    /// The selected cluster.
    pub cluster: Cluster,
    /// The selected user.
    pub user: AuthInfo,
}

impl ConfigLoader {
    /// Resolves a kubeconfig against the given overrides: the context first
    /// — the override or the file's `current-context` — then that context's
    /// cluster and user, each overridable; the first missing one is the
    /// error. Contexts and clusters resolve to the first entry of their
    /// name, users to the last.
    pub fn load(
        config: &Kubeconfig,
        context: Option<&String>,
        cluster: Option<&String>,
        user: Option<&String>,
    ) -> (r: Result<ConfigLoader, ConfigError>)
        ensures
            match find_context(config.contexts@, chosen_name(context, config.current_context@)) {
                None => r matches Err(ConfigError::LoadContext { context_name }) && context_name@
                    == chosen_name(context, config.current_context@),
                Some(ctx) => match find_cluster(
                    config.clusters@,
                    chosen_name(cluster, ctx.cluster@),
                ) {
                    None => r matches Err(ConfigError::LoadClusterOfContext { cluster_name })
                        && cluster_name@ == chosen_name(cluster, ctx.cluster@),
                    Some(cl) => match find_user(
                        config.auth_infos@,
                        chosen_name(user, ctx.user@),
                    ) {
                        None => r matches Err(ConfigError::FindUser { user_name }) && user_name@
                            == chosen_name(user, ctx.user@),
                        Some(u) => {
                            &&& r matches Ok(loader)
                            &&& loader.current_context == ctx
                            &&& loader.cluster == cl
                            &&& loader.user == u
                        },
                    },
                },
            },
    {
        let context_name: &String = match context {
            Some(c) => c,
            None => &config.current_context,
        };
        let found_context = Self::lookup_context(&config.contexts, context_name);
        let current_context = match found_context {
            Some(ctx) => ctx,
            None => {
                return Err(ConfigError::LoadContext { context_name: context_name.clone() });
            },
        };
        let cluster_name: &String = match cluster {
            Some(c) => c,
            None => &current_context.cluster,
        };
        let found_cluster = Self::lookup_cluster(&config.clusters, cluster_name);
        let cluster = match found_cluster {
            Some(cl) => cl,
            None => {
                return Err(ConfigError::LoadClusterOfContext { cluster_name: cluster_name.clone() });
            },
        };
        let user_name: &String = match user {
            Some(u) => u,
            None => &current_context.user,
        };
        let found_user = Self::lookup_user(&config.auth_infos, user_name);
        let user = match found_user {
            Some(u) => u,
            None => {
                return Err(ConfigError::FindUser { user_name: user_name.clone() });
            },
        };
        Ok(ConfigLoader { current_context, cluster, user })
    }

    fn lookup_context(contexts: &Vec<NamedContext>, name: &String) -> (r: Option<Context>)
        ensures
            r == find_context(contexts@, name@),
    {
        let n = contexts.len();
        proof {
            assert(contexts@.subrange(0, n as int) =~= contexts@);
        }
        let mut i: usize = 0;
        while i < n
            invariant
                n == contexts@.len(),
                i <= n,
                find_context(contexts@, name@) == find_context(
                    contexts@.subrange(i as int, n as int),
                    name@,
                ),
            decreases n - i,
        {
            proof {
                assert(contexts@.subrange(i as int, n as int).drop_first() =~= contexts@.subrange(
                    i + 1,
                    n as int,
                ));
            }
            if str_eq(contexts[i].name.as_str(), name.as_str()) {
                return Some(
                    Context {
                        cluster: contexts[i].context.cluster.clone(),
                        user: contexts[i].context.user.clone(),
                    },
                );
            }
            i = i + 1;
        }
        None
    }

    fn lookup_cluster(clusters: &Vec<NamedCluster>, name: &String) -> (r: Option<Cluster>)
        ensures
            r == find_cluster(clusters@, name@),
    {
        let n = clusters.len();
        proof {
            assert(clusters@.subrange(0, n as int) =~= clusters@);
        }
        let mut i: usize = 0;
        while i < n
            invariant
                n == clusters@.len(),
                i <= n,
                find_cluster(clusters@, name@) == find_cluster(
                    clusters@.subrange(i as int, n as int),
                    name@,
                ),
            decreases n - i,
        {
            proof {
                assert(clusters@.subrange(i as int, n as int).drop_first() =~= clusters@.subrange(
                    i + 1,
                    n as int,
                ));
            }
            if str_eq(clusters[i].name.as_str(), name.as_str()) {
                return Some(
                    Cluster {
                        server: clusters[i].cluster.server.clone(),
                        certificate_authority_data: clusters[
                            i
                        ].cluster.certificate_authority_data.clone(),
                    },
                );
            }
            i = i + 1;
        }
        None
    }

    fn lookup_user(users: &Vec<NamedAuthInfo>, name: &String) -> (r: Option<AuthInfo>)
        ensures
            r == find_user(users@, name@),
    {
        let n = users.len();
        proof {
            assert(users@.subrange(0, n as int) =~= users@);
        }
        let mut i: usize = n;
        while i > 0
            invariant
                n == users@.len(),
                i <= n,
                find_user(users@, name@) == find_user(users@.subrange(0, i as int), name@),
            decreases i,
        {
            i = i - 1;
            proof {
                assert(users@.subrange(0, i + 1).drop_last() =~= users@.subrange(0, i as int));
                assert(users@.subrange(0, i + 1).last() == users@[i as int]);
            }
            if str_eq(users[i].name.as_str(), name.as_str()) {
                return Some(
                    AuthInfo {
                        token: users[i].auth_info.token.clone(),
                        client_certificate_data: users[i].auth_info.client_certificate_data.clone(),
                        client_key_data: users[i].auth_info.client_key_data.clone(),
                    },
                );
            }
        }
        None
    }

    /// The certificate-authority material of the selected cluster, when it
    /// carries any.
    pub fn ca_bundle(&self) -> (r: Option<String>)
        ensures
            match self.cluster.certificate_authority_data {
                Some(ref data) => r matches Some(d) && d@ == data@,
                None => r is None,
            },
    {
        match &self.cluster.certificate_authority_data {
            Some(data) => Some(data.clone()),
            None => None,
        }
    }

    /// The client identity material of the selected user: its certificate
    /// followed by its key in one bundle; nothing when either part is
    /// missing.
    pub fn identity(&self) -> (r: Option<String>)
        ensures
            match (self.user.client_certificate_data, self.user.client_key_data) {
                (Some(ref cert), Some(ref key)) => r matches Some(d) && d@ == cert@ + key@,
                _ => r is None,
            },
    {
        match (&self.user.client_certificate_data, &self.user.client_key_data) {
            (Some(cert), Some(key)) => Some(cert.clone().concat(key.as_str())),
            _ => None,
        }
    }
}

} // verus!
