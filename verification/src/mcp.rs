//! The MCP servers that a client brings along.
use vstd::prelude::*;

use crate::text::texts;

verus! {

/// A variable of a server's environment.
#[derive(Debug, PartialEq, Eq)]
pub struct EnvVariable {
    pub name: String,
    pub value: String,
}

/// A server, as the client describes it.
#[derive(Debug, PartialEq, Eq)]
pub struct McpServer {
    pub name: String,
    pub command: String,
    pub args: Vec<String>,
    pub env: Vec<EnvVariable>,
}

/// A server, as it is configured. No name occurs twice in `env`.
#[derive(Debug, PartialEq, Eq)]
pub struct McpServerConfig {
    pub command: String,
    pub args: Vec<String>,
    pub env: Option<Vec<(String, String)>>,
    pub startup_timeout_ms: Option<u64>,
}

/// The model of an `McpServerConfig`.
#[verifier::ext_equal]
pub struct McpServerConfigView {
    pub command: Seq<char>,
    pub args: Seq<Seq<char>>,
    pub env: Option<Map<Seq<char>, Seq<char>>>,
    pub startup_timeout_ms: Option<u64>,
}

/// Whether no name occurs twice in a list of named values.
pub open spec fn distinct_names<V>(entries: Seq<(String, V)>) -> bool {
    forall|i: int, j: int|
        0 <= i < j < entries.len() ==> (#[trigger] entries[i]).0@ != (#[trigger] entries[j]).0@
}

/// The values of a list by their names. Of the values of one name the last counts.
pub open spec fn by_name<V>(entries: Seq<(String, V)>) -> Map<Seq<char>, V>
    decreases entries.len(),
{
    if entries.len() == 0 {
        Map::empty()
    } else {
        by_name(entries.drop_last()).insert(entries.last().0@, entries.last().1)
    }
}

/// The texts of a map.
pub open spec fn text_map(map: Map<Seq<char>, String>) -> Map<Seq<char>, Seq<char>> {
    map.map_values(|text: String| text@)
}

impl View for McpServerConfig {
    type V = McpServerConfigView;

    open spec fn view(&self) -> McpServerConfigView {
        McpServerConfigView {
            command: self.command@,
            args: texts(self.args@),
            env: match self.env {
                Some(env) => Some(text_map(by_name(env@))),
                None => None,
            },
            startup_timeout_ms: self.startup_timeout_ms,
        }
    }
}

impl McpServerConfig {
    /// Whether no name occurs twice in the environment.
    pub open spec fn wf(&self) -> bool {
        self.env matches Some(env) ==> distinct_names(env@)
    }
}

/// The models of the configurations in a map.
pub open spec fn config_map(map: Map<Seq<char>, McpServerConfig>) -> Map<
    Seq<char>,
    McpServerConfigView,
> {
    map.map_values(|config: McpServerConfig| config@)
}

/// The environment that a list of variables describes. Of two variables of one name the later
/// counts.
pub open spec fn environment(vars: Seq<EnvVariable>) -> Map<Seq<char>, Seq<char>>
    decreases vars.len(),
{
    if vars.len() == 0 {
        Map::empty()
    } else {
        environment(vars.drop_last()).insert(vars.last().name@, vars.last().value@)
    }
}

/// The configuration of a server.
pub open spec fn configured(server: McpServer) -> McpServerConfigView {
    McpServerConfigView {
        command: server.command@,
        args: texts(server.args@),
        env: Some(environment(server.env@)),
        startup_timeout_ms: None,
    }
}

/// The configurations of servers by the servers' names, on top of those that were there. Of two
/// servers of one name the later counts.
pub open spec fn with_servers(
    configs: Map<Seq<char>, McpServerConfigView>,
    servers: Seq<McpServer>,
) -> Map<Seq<char>, McpServerConfigView>
    decreases servers.len(),
{
    if servers.len() == 0 {
        configs
    } else {
        with_servers(configs, servers.drop_last()).insert(
            servers.last().name@,
            configured(servers.last()),
        )
    }
}

/// The values of a list in which no name occurs twice are those of its entries.
pub proof fn lemma_by_name<V>(entries: Seq<(String, V)>)
    requires
        distinct_names(entries),
    ensures
        forall|i: int|
            0 <= i < entries.len() ==> by_name(entries).contains_key((#[trigger] entries[i]).0@)
                && by_name(entries)[entries[i].0@] == entries[i].1,
        forall|name: Seq<char>| #[trigger]
            by_name(entries).contains_key(name) ==> exists|i: int|
                0 <= i < entries.len() && (#[trigger] entries[i]).0@ == name,
    decreases entries.len(),
{
    if entries.len() > 0 {
        let front = entries.drop_last();
        lemma_by_name(front);
        assert forall|i: int| 0 <= i < entries.len() implies by_name(entries).contains_key(
            (#[trigger] entries[i]).0@,
        ) && by_name(entries)[entries[i].0@] == entries[i].1 by {
            if i < front.len() {
                assert(front[i] == entries[i]);
                assert(entries[i].0@ != entries[entries.len() - 1].0@);
            }
        }
        assert forall|name: Seq<char>| #[trigger] by_name(entries).contains_key(name) implies exists|
            i: int,
        | 0 <= i < entries.len() && (#[trigger] entries[i]).0@ == name by {
            if name == entries.last().0@ {
                assert(entries[entries.len() - 1].0@ == name);
            } else {
                assert(by_name(front).contains_key(name));
                let i = choose|i: int| 0 <= i < front.len() && (#[trigger] front[i]).0@ == name;
                assert(entries[i].0@ == name);
            }
        }
    }
}

/// To put another value in the place of one of the same name is to give the name that value.
proof fn lemma_replace<V>(before: Seq<(String, V)>, at: int, entry: (String, V))
    requires
        distinct_names(before),
        0 <= at < before.len(),
        before[at].0@ == entry.0@,
    ensures
        distinct_names(before.update(at, entry)),
        by_name(before.update(at, entry)) == by_name(before).insert(entry.0@, entry.1),
{
    let after = before.update(at, entry);
    assert forall|i: int, j: int| 0 <= i < j < after.len() implies (#[trigger] after[i]).0@ != (
    #[trigger] after[j]).0@ by {
        assert(before[i].0@ != before[j].0@);
        assert(after[i].0@ == before[i].0@);
        assert(after[j].0@ == before[j].0@);
    }
    lemma_by_name(before);
    lemma_by_name(after);
    let map = by_name(before).insert(entry.0@, entry.1);
    assert forall|name: Seq<char>| by_name(after).contains_key(name) == map.contains_key(name) by {
        if by_name(after).contains_key(name) {
            let i = choose|i: int| 0 <= i < after.len() && (#[trigger] after[i]).0@ == name;
            assert(before[i].0@ == name);
        }
        if map.contains_key(name) && name != entry.0@ {
            let i = choose|i: int| 0 <= i < before.len() && (#[trigger] before[i]).0@ == name;
            assert(after[i].0@ == name);
        }
        assert(after[at].0@ == entry.0@);
    }
    assert forall|name: Seq<char>| by_name(after).contains_key(name) implies by_name(after)[name]
        == map[name] by {
        let i = choose|i: int| 0 <= i < after.len() && (#[trigger] after[i]).0@ == name;
        if i != at {
            assert(before[i] == after[i]);
            assert(before[i].0@ != before[at].0@);
        }
    }
    assert(by_name(after) =~= map);
}

/// What a name stands for in an environment is the value of the last variable of that name.
proof fn lemma_last_variable(vars: Seq<EnvVariable>, name: Seq<char>)
    requires
        environment(vars).contains_key(name),
    ensures
        exists|j: int|
            0 <= j < vars.len() && (#[trigger] vars[j]).name@ == name && vars[j].value@
                == environment(vars)[name] && forall|k: int|
                j < k < vars.len() ==> (#[trigger] vars[k]).name@ != name,
    decreases vars.len(),
{
    if vars.len() > 0 {
        if vars.last().name@ == name {
            assert(vars[vars.len() - 1].name@ == name);
        } else {
            let front = vars.drop_last();
            lemma_last_variable(front, name);
            let j = choose|j: int|
                0 <= j < front.len() && (#[trigger] front[j]).name@ == name && front[j].value@
                    == environment(front)[name] && forall|k: int|
                    j < k < front.len() ==> (#[trigger] front[k]).name@ != name;
            assert forall|k: int| j < k < vars.len() implies (#[trigger] vars[k]).name@ != name by {
                if k < front.len() {
                    assert(front[k].name@ != name);
                }
            }
            assert(vars[j].name@ == name);
        }
    }
}

/// Each variable's name stands for something in the environment.
proof fn lemma_variable_is_there(vars: Seq<EnvVariable>, j: int)
    requires
        0 <= j < vars.len(),
    ensures
        environment(vars).contains_key(vars[j].name@),
    decreases vars.len(),
{
    if j < vars.len() - 1 {
        lemma_variable_is_there(vars.drop_last(), j);
    }
}

/// What is configured under a name is the last server of that name.
proof fn lemma_last_server(servers: Seq<McpServer>, name: Seq<char>)
    requires
        with_servers(Map::empty(), servers).contains_key(name),
    ensures
        exists|j: int|
            0 <= j < servers.len() && (#[trigger] servers[j]).name@ == name && configured(
                servers[j],
            ) == with_servers(Map::empty(), servers)[name] && forall|k: int|
                j < k < servers.len() ==> (#[trigger] servers[k]).name@ != name,
    decreases servers.len(),
{
    if servers.len() > 0 {
        if servers.last().name@ == name {
            assert(servers[servers.len() - 1].name@ == name);
        } else {
            let front = servers.drop_last();
            lemma_last_server(front, name);
            let j = choose|j: int|
                0 <= j < front.len() && (#[trigger] front[j]).name@ == name && configured(front[j])
                    == with_servers(Map::empty(), front)[name] && forall|k: int|
                    j < k < front.len() ==> (#[trigger] front[k]).name@ != name;
            assert forall|k: int| j < k < servers.len() implies (#[trigger] servers[k]).name@
                != name by {
                if k < front.len() {
                    assert(front[k].name@ != name);
                }
            }
            assert(servers[j].name@ == name);
        }
    }
}

/// Each server's name stands for a configuration.
proof fn lemma_server_is_there(servers: Seq<McpServer>, j: int)
    requires
        0 <= j < servers.len(),
    ensures
        with_servers(Map::empty(), servers).contains_key(servers[j].name@),
    decreases servers.len(),
{
    if j < servers.len() - 1 {
        lemma_server_is_there(servers.drop_last(), j);
    }
}

/// Configurations that are, by their names, those of servers, are each that of the last server of
/// its name, and each server's name has one.
proof fn lemma_configs_are_of_servers(
    configs: Seq<(String, McpServerConfig)>,
    servers: Seq<McpServer>,
)
    requires
        distinct_names(configs),
        config_map(by_name(configs)) == with_servers(Map::empty(), servers),
    ensures
        forall|i: int|
            0 <= i < configs.len() ==> exists|j: int|
                0 <= j < servers.len() && (#[trigger] servers[j]).name@ == (
                #[trigger] configs[i]).0@ && configs[i].1.command@ == servers[j].command@
                    && configs[i].1.args@.len() == servers[j].args@.len() && (forall|a: int|
                    0 <= a < servers[j].args@.len() ==> (#[trigger] configs[i].1.args@[a])@
                        == servers[j].args@[a]@) && configs[i].1@.env == Some(
                    environment(servers[j].env@),
                ) && configs[i].1.startup_timeout_ms is None && forall|k: int|
                    j < k < servers.len() ==> (#[trigger] servers[k]).name@ != configs[i].0@,
        forall|j: int|
            0 <= j < servers.len() ==> exists|i: int|
                0 <= i < configs.len() && (#[trigger] configs[i]).0@ == (
                #[trigger] servers[j]).name@,
{
    lemma_by_name(configs);
    assert forall|i: int| 0 <= i < configs.len() implies exists|j: int|
        0 <= j < servers.len() && (#[trigger] servers[j]).name@ == (#[trigger] configs[i]).0@
            && configs[i].1.command@ == servers[j].command@ && configs[i].1.args@.len()
            == servers[j].args@.len() && (forall|a: int|
            0 <= a < servers[j].args@.len() ==> (#[trigger] configs[i].1.args@[a])@
                == servers[j].args@[a]@) && configs[i].1@.env == Some(
            environment(servers[j].env@),
        ) && configs[i].1.startup_timeout_ms is None && forall|k: int|
            j < k < servers.len() ==> (#[trigger] servers[k]).name@ != configs[i].0@ by {
        let name = configs[i].0@;
        assert(config_map(by_name(configs)).contains_key(name));
        assert(config_map(by_name(configs))[name] == configs[i].1@);
        lemma_last_server(servers, name);
        let j = choose|j: int|
            0 <= j < servers.len() && (#[trigger] servers[j]).name@ == name && configured(
                servers[j],
            ) == with_servers(Map::empty(), servers)[name] && forall|k: int|
                j < k < servers.len() ==> (#[trigger] servers[k]).name@ != name;
        assert(configs[i].1@.args == texts(servers[j].args@));
        assert(texts(configs[i].1.args@).len() == texts(servers[j].args@).len());
        assert forall|a: int| 0 <= a < servers[j].args@.len() implies (
        #[trigger] configs[i].1.args@[a])@ == servers[j].args@[a]@ by {
            assert(texts(configs[i].1.args@)[a] == texts(servers[j].args@)[a]);
        }
    }
    assert forall|j: int| 0 <= j < servers.len() implies exists|i: int|
        0 <= i < configs.len() && (#[trigger] configs[i]).0@ == (
        #[trigger] servers[j]).name@ by {
        lemma_server_is_there(servers, j);
        assert(config_map(by_name(configs)).contains_key(servers[j].name@));
        assert(by_name(configs).contains_key(servers[j].name@));
    }
}

/// Gives a name a value, in place of the one it had.
fn set_value<V>(entries: &mut Vec<(String, V)>, name: String, value: V)
    requires
        distinct_names(old(entries)@),
    ensures
        distinct_names(final(entries)@),
        by_name(final(entries)@) == by_name(old(entries)@).insert(name@, value),
        forall|i: int|
            0 <= i < final(entries)@.len() ==> (#[trigger] final(entries)@[i]).1 == value || old(
                entries,
            )@.contains(final(entries)@[i]),
{
    let mut i: usize = 0;
    while i < entries.len()
        invariant
            i <= entries@.len(),
            entries@ == old(entries)@,
            distinct_names(entries@),
            forall|j: int| 0 <= j < i ==> (#[trigger] entries@[j]).0@ != name@,
        decreases entries.len() - i,
    {
        if entries[i].0 == name {
            proof {
                lemma_replace(entries@, i as int, (name, value));
            }
            entries.set(i, (name, value));
            return;
        }
        i = i + 1;
    }
    entries.push((name, value));
    assert(entries@.drop_last() =~= old(entries)@);
}

/// The environment that a list of variables describes.
pub fn collect_env(vars: &[EnvVariable]) -> (env: Vec<(String, String)>)
    ensures
        distinct_names(env@),
        text_map(by_name(env@)) == environment(vars@),
        forall|i: int, j: int|
            0 <= i < j < env@.len() ==> (#[trigger] env@[i]).0@ != (#[trigger] env@[j]).0@,
        forall|i: int|
            0 <= i < env@.len() ==> exists|j: int|
                0 <= j < vars@.len() && (#[trigger] vars@[j]).name@ == (#[trigger] env@[i]).0@
                    && vars@[j].value@ == env@[i].1@ && forall|k: int|
                    j < k < vars@.len() ==> (#[trigger] vars@[k]).name@ != env@[i].0@,
        forall|j: int|
            0 <= j < vars@.len() ==> exists|i: int|
                0 <= i < env@.len() && (#[trigger] env@[i]).0@ == (#[trigger] vars@[j]).name@,
{
    let mut env: Vec<(String, String)> = Vec::new();
    assert(text_map(by_name(env@)) =~= environment(vars@.take(0)));
    for i in 0..vars.len()
        invariant
            distinct_names(env@),
            text_map(by_name(env@)) == environment(vars@.take(i as int)),
    {
        let ghost before = by_name(env@);
        set_value(&mut env, vars[i].name.clone(), vars[i].value.clone());
        proof {
            assert(vars@.take(i + 1).drop_last() =~= vars@.take(i as int));
            assert(text_map(by_name(env@)) =~= text_map(before).insert(
                vars@[i as int].name@,
                vars@[i as int].value@,
            ));
        }
    }
    assert(vars@.take(vars.len() as int) =~= vars@);
    proof {
        lemma_by_name(env@);
        assert forall|i: int| 0 <= i < env@.len() implies exists|j: int|
            0 <= j < vars@.len() && (#[trigger] vars@[j]).name@ == (#[trigger] env@[i]).0@
                && vars@[j].value@ == env@[i].1@ && forall|k: int|
                j < k < vars@.len() ==> (#[trigger] vars@[k]).name@ != env@[i].0@ by {
            assert(text_map(by_name(env@)).contains_key(env@[i].0@));
            assert(text_map(by_name(env@))[env@[i].0@] == env@[i].1@);
            lemma_last_variable(vars@, env@[i].0@);
        }
        assert forall|j: int| 0 <= j < vars@.len() implies exists|i: int|
            0 <= i < env@.len() && (#[trigger] env@[i]).0@ == (#[trigger] vars@[j]).name@ by {
            lemma_variable_is_there(vars@, j);
            assert(by_name(env@).contains_key(vars@[j].name@));
        }
    }
    env
}

/// The configuration of a server.
pub fn configure_server(server: &McpServer) -> (config: McpServerConfig)
    ensures
        config@ == configured(*server),
        config.wf(),
        config.command@ == server.command@,
        config.args@.len() == server.args@.len(),
        forall|i: int|
            0 <= i < server.args@.len() ==> (#[trigger] config.args@[i])@ == server.args@[i]@,
        config.startup_timeout_ms is None,
        config.env matches Some(env) && (forall|i: int|
            0 <= i < env@.len() ==> exists|j: int|
                0 <= j < server.env@.len() && (#[trigger] server.env@[j]).name@ == (
                #[trigger] env@[i]).0@ && server.env@[j].value@ == env@[i].1@ && forall|k: int|
                    j < k < server.env@.len() ==> (#[trigger] server.env@[k]).name@ != env@[i].0@)
            && (forall|j: int|
            0 <= j < server.env@.len() ==> exists|i: int|
                0 <= i < env@.len() && (#[trigger] env@[i]).0@ == (
                #[trigger] server.env@[j]).name@),
{
    let config: McpServerConfig = McpServerConfig {
        command: server.command.clone(),
        args: server.args.clone(),
        env: Some(collect_env(server.env.as_slice())),
        startup_timeout_ms: None,
    };
    assert(config@ =~= configured(*server));
    config
}

/// The configurations of servers, one for each name.
pub fn configure_servers(servers: &[McpServer]) -> (configs: Vec<(String, McpServerConfig)>)
    ensures
        distinct_names(configs@),
        config_map(by_name(configs@)) == with_servers(Map::empty(), servers@),
        forall|i: int| 0 <= i < configs@.len() ==> (#[trigger] configs@[i]).1.wf(),
        forall|i: int, j: int|
            0 <= i < j < configs@.len() ==> (#[trigger] configs@[i]).0@ != (
            #[trigger] configs@[j]).0@,
        forall|i: int|
            0 <= i < configs@.len() ==> exists|j: int|
                0 <= j < servers@.len() && (#[trigger] servers@[j]).name@ == (
                #[trigger] configs@[i]).0@ && configs@[i].1.command@ == servers@[j].command@
                    && configs@[i].1.args@.len() == servers@[j].args@.len() && (forall|a: int|
                    0 <= a < servers@[j].args@.len() ==> (#[trigger] configs@[i].1.args@[a])@
                        == servers@[j].args@[a]@) && configs@[i].1@.env == Some(
                    environment(servers@[j].env@),
                ) && configs@[i].1.startup_timeout_ms is None && forall|k: int|
                    j < k < servers@.len() ==> (#[trigger] servers@[k]).name@ != configs@[i].0@,
        forall|j: int|
            0 <= j < servers@.len() ==> exists|i: int|
                0 <= i < configs@.len() && (#[trigger] configs@[i]).0@ == (
                #[trigger] servers@[j]).name@,
{
    let mut configs: Vec<(String, McpServerConfig)> = Vec::new();
    assert(config_map(by_name(configs@)) =~= with_servers(Map::empty(), servers@.take(0)));
    for i in 0..servers.len()
        invariant
            distinct_names(configs@),
            config_map(by_name(configs@)) == with_servers(Map::empty(), servers@.take(i as int)),
            forall|j: int| 0 <= j < configs@.len() ==> (#[trigger] configs@[j]).1.wf(),
    {
        let ghost before = by_name(configs@);
        let ghost listed = configs@;
        let config: McpServerConfig = configure_server(&servers[i]);
        set_value(&mut configs, servers[i].name.clone(), config);
        proof {
            assert(servers@.take(i + 1).drop_last() =~= servers@.take(i as int));
            assert(config_map(by_name(configs@)) =~= config_map(before).insert(
                servers@[i as int].name@,
                configured(servers@[i as int]),
            ));
            assert forall|j: int| 0 <= j < configs@.len() implies (#[trigger] configs@[j]).1.wf() by {
                if configs@[j].1 != config {
                    assert(listed.contains(configs@[j]));
                }
            }
        }
    }
    assert(servers@.take(servers.len() as int) =~= servers@);
    proof {
        lemma_configs_are_of_servers(configs@, servers@);
    }
    configs
}

} // verus!
