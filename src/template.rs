//! Test recipes and the concrete tests resolved from them.
use vstd::prelude::*;
use crate::text::{
    chars_of, contains, decimal, decimal_chars, lemma_decimal_digits, lemma_replace_all_leaves_none,
    replace_all, replace_chars, split_words, string_of, words,
};

verus! {

/// Why a template could not be built, registered or instantiated.
#[derive(Debug, Clone, Copy, PartialEq, Eq, Structural)]
pub enum ConfigError {
    /// No verdict agent was named for the template.
    MissingAgent,
    /// The template needs a port and none was given.
    MissingPort,
    /// The template communicates with the process but has no time budget for it.
    MissingOperationTimeout,
    /// No template of that name is registered.
    UnknownTemplate,
    /// A template of that name is already registered.
    DuplicateTemplate,
}

/// The placeholder for the port in an argument template: `{port}`.
pub open spec fn port_placeholder() -> Seq<char> {
    seq!['{', 'p', 'o', 'r', 't', '}']
}

/// The leak checker's command line put before the program's own arguments.
pub open spec fn leak_check_prefix(name: Seq<char>) -> Seq<Seq<char>> {
    seq![
        "valgrind"@,
        "--leak-check=full"@,
        "--tool=memcheck"@,
        "--show-leak-kinds=all"@,
        "--track-origins=yes"@,
        "--verbose"@,
        "--error-exitcode=1"@,
        "-v"@,
        "--log-file=valgrind - "@ + name,
    ]
}

/// The argument vector of a test: the template with the port substituted,
/// split on whitespace, behind the leak checker's flags when asked for.
pub open spec fn resolved_args(tpl: Seq<char>, port: nat, leak_check: bool, name: Seq<char>) -> Seq<
    Seq<char>,
> {
    let argv = words(replace_all(tpl, port_placeholder(), decimal(port)));
    if leak_check {
        leak_check_prefix(name) + argv
    } else {
        argv
    }
}

pub open spec fn string_views(v: Seq<String>) -> Seq<Seq<char>> {
    v.map_values(|s: String| s@)
}

/// Collects a fluent description of a test recipe.
#[derive(Debug, Clone)]
pub struct TestTemplateBuilder {
    pub name: String,
    pub cmd_args_template: String,
    pub agent: Option<String>,
    pub timeout: u64,
    pub valgrind: bool,
    pub log_output: bool,
    pub communicate: bool,
    pub operation_timeout: u64,
}

/// An immutable recipe for a test.
#[derive(Debug, Clone)]
pub struct TestTemplate {
    /// Unique key of the template, and name of the tests made from it.
    pub name: String,
    /// The arguments, with `{port}` where the port goes.
    pub cmd_args_template: String,
    /// The verdict agent a fresh instance of which judges each run.
    pub agent: String,
    /// Time budget of the process, in seconds.
    pub timeout: u64,
    /// Run the program under the leak checker.
    pub valgrind: bool,
    /// Keep the captured output in a log file.
    pub log_output: bool,
    /// Exchange messages with the process while it runs.
    pub require_communicator: bool,
    /// Time budget of the exchange, in seconds.
    pub operation_timeout: u64,
}

/// A template resolved against a port, ready to run.
#[derive(Debug, Clone)]
pub struct Test {
    pub name: String,
    pub cmd_args: Vec<String>,
    pub agent: String,
    pub timeout: u64,
    pub log_output: bool,
    pub require_communicator: bool,
    pub operation_timeout: u64,
    /// The port the test is bound to; 0 when it needs none.
    pub port: u16,
}

impl TestTemplateBuilder {
    /// A builder for a template of this name, with every option off.
    pub fn new(name: &str) -> (r: Self)
        ensures
            r.name@ == name@,
            r.cmd_args_template@.len() == 0,
            r.agent is None,
            r.timeout == 0,
            !r.valgrind,
            !r.log_output,
            !r.communicate,
            r.operation_timeout == 0,
    {
        TestTemplateBuilder {
            name: name.to_owned(),
            cmd_args_template: String::new(),
            agent: None,
            timeout: 0,
            valgrind: false,
            log_output: false,
            communicate: false,
            operation_timeout: 0,
        }
    }

    pub fn args_template(self, cmd_args_template: &str) -> (r: Self)
        ensures
            r == (Self { cmd_args_template: r.cmd_args_template, ..self }),
            r.cmd_args_template@ == cmd_args_template@,
    {
        TestTemplateBuilder { cmd_args_template: cmd_args_template.to_owned(), ..self }
    }

    pub fn agent(self, agent: &str) -> (r: Self)
        ensures
            r == (Self { agent: r.agent, ..self }),
            (r.agent matches Some(a) && a@ == agent@),
    {
        TestTemplateBuilder { agent: Some(agent.to_owned()), ..self }
    }

    pub fn timeout(self, validator_timeout: u64) -> (r: Self)
        ensures
            r == (Self { timeout: validator_timeout, ..self }),
    {
        TestTemplateBuilder { timeout: validator_timeout, ..self }
    }

    pub fn valgrind(self, valgrind: bool) -> (r: Self)
        ensures
            r == (Self { valgrind, ..self }),
    {
        TestTemplateBuilder { valgrind, ..self }
    }

    pub fn log_output(self, log_output: bool) -> (r: Self)
        ensures
            r == (Self { log_output, ..self }),
    {
        TestTemplateBuilder { log_output, ..self }
    }

    pub fn communicate(self, require_communicator: bool) -> (r: Self)
        ensures
            r == (Self { communicate: require_communicator, ..self }),
    {
        TestTemplateBuilder { communicate: require_communicator, ..self }
    }

    pub fn operation_timeout(self, communicator_timeout: u64) -> (r: Self)
        ensures
            r == (Self { operation_timeout: communicator_timeout, ..self }),
    {
        TestTemplateBuilder { operation_timeout: communicator_timeout, ..self }
    }

    /// The template described so far; fails when no agent was named.
    pub fn build(self) -> (r: Result<TestTemplate, ConfigError>)
        ensures
            self.agent is None <==> r == Err::<TestTemplate, ConfigError>(ConfigError::MissingAgent),
            self.agent matches Some(a) ==> (r matches Ok(t) && t == (TestTemplate {
                name: self.name,
                cmd_args_template: self.cmd_args_template,
                agent: a,
                timeout: self.timeout,
                valgrind: self.valgrind,
                log_output: self.log_output,
                require_communicator: self.communicate,
                operation_timeout: self.operation_timeout,
            })),
    {
        match self.agent {
            None => Err(ConfigError::MissingAgent),
            Some(agent) => Ok(
                TestTemplate {
                    name: self.name,
                    cmd_args_template: self.cmd_args_template,
                    agent,
                    timeout: self.timeout,
                    valgrind: self.valgrind,
                    log_output: self.log_output,
                    require_communicator: self.communicate,
                    operation_timeout: self.operation_timeout,
                },
            ),
        }
    }
}

impl TestTemplate {
    pub open spec fn has_placeholder(&self) -> bool {
        contains(self.cmd_args_template@, port_placeholder())
    }

    /// The error `instantiate` reports for `port`, if any.
    pub open spec fn instantiate_error(&self, port: Option<u16>) -> Option<ConfigError> {
        if self.require_communicator && port is None {
            Some(ConfigError::MissingPort)
        } else if self.require_communicator && self.operation_timeout == 0 {
            Some(ConfigError::MissingOperationTimeout)
        } else if self.has_placeholder() && port is None {
            Some(ConfigError::MissingPort)
        } else {
            None
        }
    }

    /// The test made from this template for `port` (0 when absent).
    pub open spec fn instance_matches(&self, port: Option<u16>, t: Test) -> bool {
        let p: u16 = match port {
            Some(p) => p,
            None => 0,
        };
        &&& t.name@ == self.name@
        &&& string_views(t.cmd_args@) == resolved_args(
            self.cmd_args_template@,
            p as nat,
            self.valgrind,
            self.name@,
        )
        &&& t.agent@ == self.agent@
        &&& t.timeout == self.timeout
        &&& t.log_output == self.log_output
        &&& t.require_communicator == self.require_communicator
        &&& t.operation_timeout == self.operation_timeout
        &&& t.port == p
    }

    /// Resolves the template against a port: checks the configuration,
    /// substitutes the port for each placeholder, splits the arguments on
    /// whitespace and puts the leak checker in front when asked for.
    pub fn instantiate(&self, port: Option<u16>) -> (r: Result<Test, ConfigError>)
        ensures
            self.instantiate_error(port) matches Some(e) ==> r == Err::<Test, ConfigError>(e),
            self.instantiate_error(port) is None ==> (r matches Ok(t) && self.instance_matches(
                port,
                t,
            )),
    {
        let tpl: Vec<char> = chars_of(self.cmd_args_template.as_str());
        let placeholder: [char; 6] = ['{', 'p', 'o', 'r', 't', '}'];
        proof {
            assert(placeholder@ =~= port_placeholder());
        }
        if self.require_communicator && port.is_none() {
            return Err(ConfigError::MissingPort);
        }
        if self.require_communicator && self.operation_timeout == 0 {
            return Err(ConfigError::MissingOperationTimeout);
        }
        let has_placeholder = crate::text::contains_chars(tpl.as_slice(), placeholder.as_slice());
        if has_placeholder && port.is_none() {
            return Err(ConfigError::MissingPort);
        }
        let p: u16 = match port {
            Some(p) => p,
            None => 0,
        };
        let digits = decimal_chars(p);
        let text = replace_chars(tpl.as_slice(), placeholder.as_slice(), digits.as_slice());
        let pieces = split_words(text.as_slice());
        let mut cmd_args: Vec<String> = if self.valgrind {
            leak_check_args(&self.name)
        } else {
            Vec::new()
        };
        let ghost head = string_views(cmd_args@);
        let mut i: usize = 0;
        while i < pieces.len()
            invariant
                i <= pieces@.len(),
                string_views(cmd_args@) == head + crate::text::char_views(pieces@).subrange(
                    0,
                    i as int,
                ),
            decreases pieces@.len() - i,
        {
            let ghost before = cmd_args@;
            cmd_args.push(string_of(pieces[i].as_slice()));
            proof {
                assert(string_views(cmd_args@) =~= string_views(before).push(pieces@[i as int]@));
                assert(crate::text::char_views(pieces@).subrange(0, i + 1) =~= crate::text::char_views(
                    pieces@,
                ).subrange(0, i as int).push(pieces@[i as int]@));
            }
            i += 1;
        }
        proof {
            assert(crate::text::char_views(pieces@).subrange(0, pieces@.len() as int)
                =~= crate::text::char_views(pieces@));
            if !self.valgrind {
                assert(head =~= Seq::<Seq<char>>::empty());
                assert(string_views(cmd_args@) =~= words(
                    replace_all(self.cmd_args_template@, port_placeholder(), decimal(p as nat)),
                ));
            }
        }
        Ok(
            Test {
                name: self.name.clone(),
                cmd_args,
                agent: self.agent.clone(),
                timeout: self.timeout,
                log_output: self.log_output,
                require_communicator: self.require_communicator,
                operation_timeout: self.operation_timeout,
                port: p,
            },
        )
    }
}

/// The live exchange a run holds with its process.
#[derive(Debug, Clone, Copy, PartialEq, Eq, Structural)]
pub struct Exchange {
    /// Time budget of the exchange, in seconds.
    pub timeout: u64,
    /// The port to talk to.
    pub port: u16,
}

/// What running a test involves.
#[derive(Debug, Clone, Copy, PartialEq, Eq, Structural)]
pub enum RunPlan {
    /// No process runs: the agent judges an idle result.
    Idle,
    /// A process runs under `wait_timeout`; an exchange, if any, runs beside
    /// the wait; the captured output is logged when `keep_output` is set.
    Supervise { wait_timeout: u64, exchange: Option<Exchange>, keep_output: bool },
}

impl Test {
    /// How this test runs: with no arguments nothing is spawned.
    pub fn plan(&self) -> (r: RunPlan)
        ensures
            self.cmd_args@.len() == 0 ==> r == RunPlan::Idle,
            self.cmd_args@.len() > 0 ==> r == (RunPlan::Supervise {
                wait_timeout: self.timeout,
                exchange: if self.require_communicator {
                    Some(Exchange { timeout: self.operation_timeout, port: self.port })
                } else {
                    None
                },
                keep_output: self.log_output,
            }),
    {
        if self.cmd_args.len() == 0 {
            return RunPlan::Idle;
        }
        let exchange = if self.require_communicator {
            Some(Exchange { timeout: self.operation_timeout, port: self.port })
        } else {
            None
        };
        RunPlan::Supervise { wait_timeout: self.timeout, exchange, keep_output: self.log_output }
    }

    /// The file the captured output is kept in: `output - <name>.txt`.
    pub fn output_log_name(&self) -> (r: String)
        ensures
            r@ == "output - "@ + self.name@ + ".txt"@,
    {
        framed_name("output - ", &self.name)
    }

    /// The file the exchange is kept in: `communicate - <name>.txt`.
    pub fn communication_log_name(&self) -> (r: String)
        ensures
            r@ == "communicate - "@ + self.name@ + ".txt"@,
    {
        framed_name("communicate - ", &self.name)
    }

    /// The decimal digits of the port, as the agent receives it.
    pub fn port_text(&self) -> (r: String)
        ensures
            r@ == decimal(self.port as nat),
    {
        let digits = decimal_chars(self.port);
        string_of(digits.as_slice())
    }
}

fn framed_name(prefix: &str, name: &String) -> (r: String)
    ensures
        r@ == prefix@ + name@ + ".txt"@,
{
    let mut cs: Vec<char> = chars_of(prefix);
    let mut middle: Vec<char> = chars_of(name.as_str());
    let mut suffix: Vec<char> = chars_of(".txt");
    cs.append(&mut middle);
    cs.append(&mut suffix);
    string_of(cs.as_slice())
}

/// A template that communicates with its process but has no time budget for
/// the exchange cannot be instantiated, whatever the port.
pub proof fn lemma_communication_needs_timeout(t: TestTemplate, port: Option<u16>)
    requires
        t.require_communicator,
        t.operation_timeout == 0,
    ensures
        t.instantiate_error(port) is Some,
{
}

/// A template whose arguments hold the port placeholder cannot be
/// instantiated without a port; with port `p`, when nothing else is wrong,
/// the arguments are the words of the template with every placeholder
/// replaced by the decimal digits of `p`, and no placeholder is left.
pub proof fn lemma_placeholder_needs_port(t: TestTemplate, p: u16, inst: Test)
    requires
        t.has_placeholder(),
    ensures
        t.instantiate_error(None) == Some(ConfigError::MissingPort),
        t.instantiate_error(Some(p)) is None && t.instance_matches(Some(p), inst) ==> string_views(
            inst.cmd_args@,
        ) == (if t.valgrind {
            leak_check_prefix(t.name@)
        } else {
            Seq::empty()
        }) + words(replace_all(t.cmd_args_template@, port_placeholder(), decimal(p as nat))),
        !contains(replace_all(t.cmd_args_template@, port_placeholder(), decimal(p as nat)), port_placeholder()),
{
    lemma_decimal_digits(p as nat);
    lemma_replace_all_leaves_none(t.cmd_args_template@, port_placeholder(), decimal(p as nat));
    if !t.valgrind {
        let argv = words(replace_all(t.cmd_args_template@, port_placeholder(), decimal(p as nat)));
        assert(Seq::<Seq<char>>::empty() + argv =~= argv);
    }
}

fn leak_check_args(name: &String) -> (r: Vec<String>)
    ensures
        string_views(r@) == leak_check_prefix(name@),
{
    let mut log_file: Vec<char> = chars_of("--log-file=valgrind - ");
    let mut tail: Vec<char> = chars_of(name.as_str());
    log_file.append(&mut tail);
    let r: Vec<String> = vec![
        "valgrind".to_owned(),
        "--leak-check=full".to_owned(),
        "--tool=memcheck".to_owned(),
        "--show-leak-kinds=all".to_owned(),
        "--track-origins=yes".to_owned(),
        "--verbose".to_owned(),
        "--error-exitcode=1".to_owned(),
        "-v".to_owned(),
        string_of(log_file.as_slice()),
    ];
    proof {
        assert(string_views(r@) =~= leak_check_prefix(name@));
    }
    r
}

} // verus!
