//! The server configuration: the data path and the services to run, checked
//! as they are read.

use vstd::prelude::*;
use vstd::string::StringExecFns;

pub mod text;

verus! {

/// What reading a service's table reads; each field is `None` where its
/// key is missing or holds a value of another type. `bind` is the bind
/// address, already resolved; `v4_servers` holds the entries of that
/// array, each read as an IPv4 address and port, `None` where it is not a
/// string of that form.
pub struct ServiceTable<A> {
    pub bind: Option<A>,
    pub service_type: Option<String>,
    pub motd: Option<String>,
    pub random_balance: Option<bool>,
    pub v4_servers: Option<Vec<Option<(u32, u16)>>>,
}

/// A configured service.
pub enum ServiceConf<A> {
    /// A patch server, announcing `motd`, handing clients to the data
    /// servers `v4_servers` (IPv4 address and port).
    Patch { bind: A, motd: String, v4_servers: Vec<(u32, u16)>, random_balance: bool },
    /// A patch data server.
    Data { bind: A },
}

/// What reading the configuration reads: the `idola` section, if there is
/// one, with its `data_path` string if it has one; the entries of the
/// `service` array, if there is one, each `None` where it is not a table.
pub struct ConfigDoc<A> {
    pub idola: Option<Option<String>>,
    pub services: Option<Vec<Option<ServiceTable<A>>>>,
}

/// The configuration.
pub struct Config<A> {
    pub data_path: Option<String>,
    pub services: Vec<ServiceConf<A>>,
}

/// A service's configuration as plain values.
pub enum ServiceView<A> {
    Patch { bind: A, motd: Seq<char>, v4_servers: Seq<(u32, u16)>, random_balance: bool },
    Data { bind: A },
}

/// The plain values of a service's configuration.
pub open spec fn service_view<A>(c: ServiceConf<A>) -> ServiceView<A> {
    match c {
        ServiceConf::Patch { bind, motd, v4_servers, random_balance } => ServiceView::Patch {
            bind,
            motd: motd@,
            v4_servers: v4_servers@,
            random_balance,
        },
        ServiceConf::Data { bind } => ServiceView::Data { bind },
    }
}

/// What a service's table gives: the service, or why it is refused.
pub open spec fn service_result<A>(t: ServiceTable<A>) -> Result<ServiceView<A>, Seq<char>> {
    if t.bind is None {
        Err("No bind address specified for service"@)
    } else if t.service_type is None {
        Err("Service has no type declared"@)
    } else if t.service_type->0@ == "patch"@ {
        if t.v4_servers is None {
            Err("patch service v4_servers field is not an array"@)
        } else if exists|i: int| 0 <= i < t.v4_servers->0@.len() && #[trigger] t.v4_servers->0@[i] is None {
            Err("patch service's data address is not a valid IPv4 address:port string"@)
        } else if t.v4_servers->0@.len() == 0 {
            Err("patch service has no IPv4 data nodes declared"@)
        } else {
            Ok(
                ServiceView::Patch {
                    bind: t.bind->0,
                    motd: match t.motd {
                        Some(m) => m@,
                        None => Seq::empty(),
                    },
                    v4_servers: t.v4_servers->0@.map_values(|p: Option<(u32, u16)>| p->0),
                    random_balance: match t.random_balance {
                        Some(b) => b,
                        None => false,
                    },
                },
            )
        }
    } else if t.service_type->0@ == "data"@ {
        Ok(ServiceView::Data { bind: t.bind->0 })
    } else {
        Err("invalid service type specified"@)
    }
}

/// A result as plain values.
pub open spec fn result_view<A>(r: Result<ServiceConf<A>, String>) -> Result<ServiceView<A>, Seq<char>> {
    match r {
        Ok(c) => Ok(service_view(c)),
        Err(e) => Err(e@),
    }
}

/// What the configuration's services give, read in order: the services,
/// or the first refusal.
pub open spec fn services_result<A>(entries: Seq<Option<ServiceTable<A>>>) -> Result<Seq<ServiceView<A>>, Seq<char>>
    decreases entries.len(),
{
    if entries.len() == 0 {
        Ok(Seq::empty())
    } else {
        match services_result(entries.drop_last()) {
            Err(e) => Err(e),
            Ok(done) => match entries.last() {
                None => Err("a configured service is not a TOML table"@),
                Some(t) => match service_result(t) {
                    Err(e) => Err(e),
                    Ok(s) => Ok(done.push(s)),
                },
            },
        }
    }
}

/// What the configuration document gives: no `idola` section is refused;
/// else the data path and the services, or the first refusal.
pub open spec fn config_result<A>(doc: ConfigDoc<A>) -> Result<(Option<Seq<char>>, Seq<ServiceView<A>>), Seq<char>> {
    match doc.idola {
        None => Err("No idola section"@),
        Some(dp) => {
            let path = match dp {
                Some(p) => Some(p@),
                None => None,
            };
            match doc.services {
                None => Ok((path, Seq::empty())),
                Some(v) => match services_result(v@) {
                    Err(e) => Err(e),
                    Ok(s) => Ok((path, s)),
                },
            }
        },
    }
}

/// Once a prefix of the services is refused, the whole list is refused
/// the same way.
pub proof fn lemma_services_refused<A>(s: Seq<Option<ServiceTable<A>>>, k: int)
    requires
        0 <= k <= s.len(),
        services_result(s.subrange(0, k)) is Err,
    ensures
        services_result(s) == services_result(s.subrange(0, k)),
    decreases s.len(),
{
    if k == s.len() {
        assert(s.subrange(0, k) =~= s);
    } else {
        assert(s.drop_last().subrange(0, k) =~= s.subrange(0, k));
        lemma_services_refused(s.drop_last(), k);
    }
}

impl<A> ServiceConf<A> {
    /// Reads a service's table: it needs a bind address and a type,
    /// "patch" or "data"; a patch service takes its message of the day
    /// (empty by default), whether to balance at random (no by default),
    /// and one IPv4 data server or more.
    #[verifier::loop_isolation(false)]
    pub fn from_toml_table(t: ServiceTable<A>) -> (r: Result<ServiceConf<A>, String>)
        ensures
            result_view(r) == service_result(t),
    {
        let ghost t0 = t;
        let ServiceTable { bind, service_type, motd, random_balance, v4_servers } = t;
        let bind = match bind {
            Some(b) => b,
            None => return Err(String::from_str("No bind address specified for service")),
        };
        let ty = match service_type {
            Some(ty) => ty,
            None => return Err(String::from_str("Service has no type declared")),
        };
        if ty == String::from_str("patch") {
            let motd = match motd {
                Some(m) => m,
                None => String::new(),
            };
            let random_balance = match random_balance {
                Some(b) => b,
                None => false,
            };
            assert(t0.v4_servers == v4_servers);
            let entries = match v4_servers {
                Some(v) => v,
                None => return Err(String::from_str("patch service v4_servers field is not an array")),
            };
            let mut servers: Vec<(u32, u16)> = Vec::new();
            let mut i: usize = 0;
            while i < entries.len()
                invariant
                    i <= entries@.len(),
                    t0.bind is Some && t0.service_type is Some && t0.service_type->0@ == "patch"@,
                    t0.v4_servers is Some && t0.v4_servers->0@ == entries@,
                    servers@.len() == i,
                    forall|k: int| 0 <= k < i ==> #[trigger] entries@[k] is Some,
                    forall|k: int| 0 <= k < i ==> #[trigger] servers@[k] == entries@[k]->0,
                decreases entries@.len() - i,
            {
                match entries[i] {
                    Some(a) => servers.push(a),
                    None => {
                        assert(t0.v4_servers->0@[i as int] is None);
                        return Err(
                            String::from_str("patch service's data address is not a valid IPv4 address:port string"),
                        );
                    },
                }
                i = i + 1;
            }
            proof {
                assert(servers@ =~= entries@.map_values(|p: Option<(u32, u16)>| p->0));
            }
            if servers.len() == 0 {
                return Err(String::from_str("patch service has no IPv4 data nodes declared"));
            }
            Ok(ServiceConf::Patch { bind, motd, v4_servers: servers, random_balance })
        } else if ty == String::from_str("data") {
            Ok(ServiceConf::Data { bind })
        } else {
            Err(String::from_str("invalid service type specified"))
        }
    }
}

impl<A> Config<A> {
    /// Reads the configuration document: it needs an `idola` section; the
    /// services are read in order, and the first refused one refuses the
    /// configuration.
    pub fn from_toml_value(doc: ConfigDoc<A>) -> (r: Result<Config<A>, String>)
        ensures
            match (r, config_result(doc)) {
                (Ok(c), Ok((path, services))) => {
                    &&& (match c.data_path {
                        Some(p) => path == Some(p@),
                        None => path is None,
                    })
                    &&& c.services@.map_values(|s: ServiceConf<A>| service_view(s)) == services
                },
                (Err(e), Err(f)) => e@ == f,
                _ => false,
            },
    {
        let ghost doc0 = doc;
        let ConfigDoc { idola, services } = doc;
        let data_path = match idola {
            Some(dp) => dp,
            None => return Err(String::from_str("No idola section")),
        };
        let mut out: Vec<ServiceConf<A>> = Vec::new();
        if let Some(entries) = services {
            let ghost all = entries@;
            assert(doc0.services->0@ == all);
            let mut entries = entries;
            let mut rest: Vec<Option<ServiceTable<A>>> = Vec::new();
            // Take the entries in order: reverse them, then pop.
            while entries.len() > 0
                invariant
                    rest@ == all.subrange(entries@.len() as int, all.len() as int).reverse(),
                    entries@ == all.subrange(0, entries@.len() as int),
                    entries@.len() <= all.len(),
                decreases entries@.len(),
            {
                let ghost before = entries@;
                let e = entries.pop().unwrap();
                rest.push(e);
                proof {
                    assert(entries@ =~= all.subrange(0, entries@.len() as int));
                    assert(rest@ =~= all.subrange(entries@.len() as int, all.len() as int).reverse());
                }
            }
            assert(all.subrange(0, all.len() as int) =~= all);
            loop
                invariant
                    doc0 == doc,
                    doc0.idola is Some,
                    doc0.services is Some && doc0.services->0@ == all,
                    rest@.len() <= all.len(),
                    all.subrange(0, all.len() - rest@.len()) + rest@.reverse() == all,
                    services_result(all.subrange(0, all.len() - rest@.len())) matches Ok(done) && out@.map_values(
                        |s: ServiceConf<A>| service_view(s),
                    ) == done,
                ensures
                    rest@.len() == 0,
                    services_result(all) matches Ok(done) && out@.map_values(|s: ServiceConf<A>| service_view(s))
                        == done,
                decreases rest@.len(),
            {
                let ghost k = all.len() - rest@.len();
                let ghost before_rest = rest@;
                match rest.pop() {
                    None => {
                        assert(all.subrange(0, all.len() as int) =~= all);
                        break;
                    },
                    Some(entry) => {
                        proof {
                            assert(before_rest.reverse()[0] == entry);
                            assert(all[k] == entry) by {
                                assert(all[k] == (all.subrange(0, k) + before_rest.reverse())[k]);
                            }
                            assert(all.subrange(0, k + 1).drop_last() =~= all.subrange(0, k));
                            assert(all.subrange(0, k) + before_rest.reverse() =~= all.subrange(0, k + 1) + rest@.reverse());
                        }
                        match entry {
                            None => {
                                proof {
                                    lemma_services_refused(all, k + 1);
                                }
                                return Err(String::from_str("a configured service is not a TOML table"));
                            },
                            Some(t) => match ServiceConf::from_toml_table(t) {
                                Ok(s) => {
                                    out.push(s);
                                    proof {
                                        assert(out@.map_values(|s: ServiceConf<A>| service_view(s)) =~= out@.drop_last().map_values(
                                            |s: ServiceConf<A>| service_view(s),
                                        ).push(service_view(s)));
                                    }
                                },
                                Err(e) => {
                                    proof {
                                        lemma_services_refused(all, k + 1);
                                    }
                                    return Err(e);
                                },
                            },
                        }
                    },
                }
            }
        }
        Ok(Config { data_path, services: out })
    }
}

} // verus!
