use vstd::prelude::*;

verus! {

/// One configured infrastructure project: a flat record of strings, read-only
/// input to the plan pipeline once it has been loaded from the configuration.
pub struct Project {
    pub name: String,
    pub slack_webhook_url: String,
    pub git_repo_url: String,
    pub tmp_prj_directory: String,
    pub aws_api_key: String,
    pub aws_secret: String,
    pub aws_default_region: String,
}

/// An ordered list of projects, loaded once per run.
pub struct Config {
    pub projects: Vec<Project>,
}

/// One environment variable handed to an external command.
pub struct EnvVar {
    pub name: String,
    pub value: String,
}

/// A full description of one external command invocation: program, arguments,
/// working directory and the environment variables scoped to that invocation.
/// The library only builds these descriptions; running them is the caller's
/// business.
pub struct CommandSpec {
    pub program: String,
    pub args: Vec<String>,
    pub working_dir: String,
    pub env: Vec<EnvVar>,
}

/// The initialization command of the planning tool: `terraform init`, run in
/// the project's checkout directory, with no extra environment.
pub open spec fn is_init_command(c: CommandSpec, p: Project) -> bool {
    &&& c.program@ == "terraform"@
    &&& c.args@.len() == 1
    &&& c.args@[0]@ == "init"@
    &&& c.working_dir@ == p.tmp_prj_directory@
    &&& c.env@.len() == 0
}

/// The plan command of the planning tool: `terraform plan -no-color`, run in
/// the project's checkout directory, with exactly the three credential fields
/// injected as environment variables and nothing else.
pub open spec fn is_plan_command(c: CommandSpec, p: Project) -> bool {
    &&& c.program@ == "terraform"@
    &&& c.args@.len() == 2
    &&& c.args@[0]@ == "plan"@
    &&& c.args@[1]@ == "-no-color"@
    &&& c.working_dir@ == p.tmp_prj_directory@
    &&& c.env@.len() == 3
    &&& c.env@[0].name@ == "AWS_ACCESS_KEY_ID"@
    &&& c.env@[0].value@ == p.aws_api_key@
    &&& c.env@[1].name@ == "AWS_SECRET_ACCESS_KEY"@
    &&& c.env@[1].value@ == p.aws_secret@
    &&& c.env@[2].name@ == "AWS_DEFAULT_REGION"@
    &&& c.env@[2].value@ == p.aws_default_region@
}

impl Project {
    /// Build the description of the planning tool's initialization step.
    pub fn init_command(&self) -> (c: CommandSpec)
        ensures
            is_init_command(c, *self),
    {
        let mut args: Vec<String> = Vec::new();
        args.push("init".to_owned());
        CommandSpec {
            program: "terraform".to_owned(),
            args,
            working_dir: self.tmp_prj_directory.clone(),
            env: Vec::new(),
        }
    }

    /// Build the description of the plan-generation step, with color output
    /// disabled and the project's credentials scoped to this one invocation.
    pub fn plan_command(&self) -> (c: CommandSpec)
        ensures
            is_plan_command(c, *self),
    {
        let mut args: Vec<String> = Vec::new();
        args.push("plan".to_owned());
        args.push("-no-color".to_owned());
        let mut env: Vec<EnvVar> = Vec::new();
        env.push(EnvVar { name: "AWS_ACCESS_KEY_ID".to_owned(), value: self.aws_api_key.clone() });
        env.push(EnvVar { name: "AWS_SECRET_ACCESS_KEY".to_owned(), value: self.aws_secret.clone() });
        env.push(EnvVar { name: "AWS_DEFAULT_REGION".to_owned(), value: self.aws_default_region.clone() });
        CommandSpec {
            program: "terraform".to_owned(),
            args,
            working_dir: self.tmp_prj_directory.clone(),
            env,
        }
    }
}

} // verus!
