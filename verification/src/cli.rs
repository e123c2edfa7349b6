use vstd::prelude::*;

verus! {

/// The command line of the research lab.
#[derive(Debug, PartialEq)]
pub struct Cli {
    pub command: Option<Commands>,
}

/// What the research lab is asked to do.
#[derive(Debug, PartialEq)]
pub enum Commands {
    /// Initialize data directories (future).
    Init,
    /// Run the agent flow once.
    Run(RunCmd),
    /// Send a message and run the full pipeline, printing agent responses.
    Chat(ChatCmd),
    /// Start the HTTP server.
    Serve(ServeCmd),
}

/// Options of a single run.
#[derive(Debug, PartialEq)]
pub struct RunCmd {
    /// Optional goal title to seed the PI node.
    pub goal: Option<String>,
}

/// Options of a chat.
#[derive(Debug, PartialEq)]
pub struct ChatCmd {
    /// Initial message to seed as the goal; if omitted, the user is prompted.
    pub message: Option<String>,
}

/// Options of the HTTP server.
#[derive(Debug, PartialEq)]
pub struct ServeCmd {
    /// Port to bind the HTTP server.
    pub port: u16,
}

/// What the program does once its command line is read.
#[derive(Debug, PartialEq)]
pub enum Launch {
    /// Serve HTTP on `port`.
    Serve { port: u16 },
    /// Run the pipeline once, seeded with `goal` as its goal title where there is
    /// one; where `ask_for_goal` holds, the title is read from the user first.
    Flow { goal: Option<String>, ask_for_goal: bool },
}

/// The text of an optional string.
pub open spec fn opt_view(o: Option<String>) -> Option<Seq<char>> {
    match o {
        Some(s) => Some(s@),
        None => None,
    }
}

fn copy_opt(o: &Option<String>) -> (r: Option<String>)
    ensures
        opt_view(r) == opt_view(*o),
{
    match o {
        Some(s) => Some(s.clone()),
        None => None,
    }
}

impl Cli {
    /// Decides what the program does: `serve` serves; `run` runs with its goal;
    /// `chat` runs with its message as the goal, or asks for one; anything else
    /// runs without a goal.
    pub fn launch(&self) -> (r: Launch)
        ensures
            match self.command {
                Some(Commands::Serve(cfg)) => r == Launch::Serve { port: cfg.port },
                Some(Commands::Run(run)) => r matches Launch::Flow { goal, ask_for_goal } && !ask_for_goal
                    && opt_view(goal) == opt_view(run.goal),
                Some(Commands::Chat(chat)) => r matches Launch::Flow { goal, ask_for_goal } && ask_for_goal
                    == (chat.message is None) && opt_view(goal) == opt_view(chat.message),
                _ => r matches Launch::Flow { goal, ask_for_goal } && !ask_for_goal && goal is None,
            },
    {
        match &self.command {
            Some(Commands::Serve(cfg)) => Launch::Serve { port: cfg.port },
            Some(Commands::Run(run)) => Launch::Flow { goal: copy_opt(&run.goal), ask_for_goal: false },
            Some(Commands::Chat(chat)) => Launch::Flow {
                goal: copy_opt(&chat.message),
                ask_for_goal: chat.message.is_none(),
            },
            _ => Launch::Flow { goal: None, ask_for_goal: false },
        }
    }
}

} // verus!
