//! The interactive command surface: the command groups a user can pick from
//! and the per-command descriptions and progress messages. The prompting and
//! dispatch around these live outside the library.

use vstd::prelude::*;

verus! {

/// How a processed command directs the surrounding menu loop.
pub enum CommandFlow<T> {
    Process(T),
    GoBack,
    Exit,
}

/// Commands related to wallet or account management.
#[derive(Debug, Clone)]
pub enum AccountCommand {
    FetchAccount,
    Balance,
    Transfer,
    Airdrop,
    ConfirmTransaction,
    LargestAccounts,
    NonceAccount,
    GoBack,
}

impl AccountCommand {
    /// The menu line shown for this command.
    pub fn description(&self) -> (m: &'static str)
        ensures
            m@ == self.spec_description(),
    {
        match self {
            AccountCommand::FetchAccount => "Fetch Account",
            AccountCommand::Balance => "Check SOL balance",
            AccountCommand::Transfer => "Send SOL to another wallet",
            AccountCommand::Airdrop => "Request devnet/testnet SOL",
            AccountCommand::ConfirmTransaction => "Check if a transaction landed",
            AccountCommand::LargestAccounts => "See the biggest accounts on cluster",
            AccountCommand::NonceAccount => "Inspect or manage durable nonces",
            AccountCommand::GoBack => "Go back",
        }
    }

    /// The menu line, as a sequence of characters.
    pub open spec fn spec_description(&self) -> Seq<char> {
        match self {
            AccountCommand::FetchAccount => "Fetch Account"@,
            AccountCommand::Balance => "Check SOL balance"@,
            AccountCommand::Transfer => "Send SOL to another wallet"@,
            AccountCommand::Airdrop => "Request devnet/testnet SOL"@,
            AccountCommand::ConfirmTransaction => "Check if a transaction landed"@,
            AccountCommand::LargestAccounts => "See the biggest accounts on cluster"@,
            AccountCommand::NonceAccount => "Inspect or manage durable nonces"@,
            AccountCommand::GoBack => "Go back"@,
        }
    }
}

/// Commands related to configuration, such as the RPC endpoint and the
/// default keypair path.
#[derive(Debug, Clone)]
pub enum ConfigCommand {
    Show,
    Generate,
    Edit,
    GoBack,
}

impl ConfigCommand {
    /// The menu line shown for this command.
    pub fn description(&self) -> (m: &'static str)
        ensures
            m@ == self.spec_description(),
    {
        match self {
            ConfigCommand::Show => "Display current Scilla configuration",
            ConfigCommand::Generate => "Set up a new Scilla configuration",
            ConfigCommand::Edit => "Modify existing Scilla configuration",
            ConfigCommand::GoBack => "Go back",
        }
    }

    /// The menu line, as a sequence of characters.
    pub open spec fn spec_description(&self) -> Seq<char> {
        match self {
            ConfigCommand::Show => "Display current Scilla configuration"@,
            ConfigCommand::Generate => "Set up a new Scilla configuration"@,
            ConfigCommand::Edit => "Modify existing Scilla configuration"@,
            ConfigCommand::GoBack => "Go back"@,
        }
    }
}

/// Commands related to staking operations.
#[derive(Debug, Clone)]
pub enum StakeCommand {
    Create,
    Delegate,
    Deactivate,
    Withdraw,
    Merge,
    Split,
    Show,
    History,
    GoBack,
}

impl StakeCommand {
    /// The progress message shown while this command runs.
    pub fn spinner_msg(&self) -> (m: &'static str)
        ensures
            m@ == self.spec_spinner_msg(),
    {
        match self {
            StakeCommand::Create => "Creating new stake account…",
            StakeCommand::Delegate => "Delegating stake to validator…",
            StakeCommand::Deactivate => "Deactivating stake (cooldown starting)…",
            StakeCommand::Withdraw => "Withdrawing SOL from deactivated stake…",
            StakeCommand::Merge => "Merging stake accounts…",
            StakeCommand::Split => "Splitting stake into multiple accounts…",
            StakeCommand::Show => "Fetching stake account details…",
            StakeCommand::History => "Fetching stake account history…",
            StakeCommand::GoBack => "Going back…",
        }
    }

    /// The progress message, as a sequence of characters.
    pub open spec fn spec_spinner_msg(&self) -> Seq<char> {
        match self {
            StakeCommand::Create => "Creating new stake account…"@,
            StakeCommand::Delegate => "Delegating stake to validator…"@,
            StakeCommand::Deactivate => "Deactivating stake (cooldown starting)…"@,
            StakeCommand::Withdraw => "Withdrawing SOL from deactivated stake…"@,
            StakeCommand::Merge => "Merging stake accounts…"@,
            StakeCommand::Split => "Splitting stake into multiple accounts…"@,
            StakeCommand::Show => "Fetching stake account details…"@,
            StakeCommand::History => "Fetching stake account history…"@,
            StakeCommand::GoBack => "Going back…"@,
        }
    }
}

/// Commands related to program deployment.
#[derive(Debug, Clone)]
pub enum ProgramCommand {
    Deploy,
    GoBack,
}

impl ProgramCommand {
    /// The progress message shown while this command runs.
    pub fn spinner_msg(&self) -> (m: &'static str)
        ensures
            m@ == self.spec_spinner_msg(),
    {
        match self {
            ProgramCommand::Deploy => "Deploying program via TPU...",
            ProgramCommand::GoBack => "",
        }
    }

    /// The progress message, as a sequence of characters.
    pub open spec fn spec_spinner_msg(&self) -> Seq<char> {
        match self {
            ProgramCommand::Deploy => "Deploying program via TPU..."@,
            ProgramCommand::GoBack => ""@,
        }
    }
}

/// Commands related to validator and vote-account operations.
#[derive(Debug, Clone)]
pub enum VoteCommand {
    CreateVoteAccount,
    AuthorizeVoter,
    WithdrawFromVote,
    ShowVoteAccount,
    GoBack,
}

/// Commands related to cluster-wide information.
#[derive(Debug, Clone)]
pub enum ClusterCommand {
    EpochInfo,
    CurrentSlot,
    BlockHeight,
    BlockTime,
    Validators,
    ClusterVersion,
    SupplyInfo,
    Inflation,
    GoBack,
}

/// One fully selected command, ready to process.
#[derive(Debug, Clone)]
pub enum Command {
    Cluster(ClusterCommand),
    Stake(StakeCommand),
    Account(AccountCommand),
    Program(ProgramCommand),
    Vote(VoteCommand),
    ScillaConfig(ConfigCommand),
    Exit,
}

/// The top-level menu groups.
#[derive(Debug, Clone)]
pub enum CommandGroup {
    Account,
    Program,
    Cluster,
    Stake,
    Vote,
    Transaction,
    ScillaConfig,
    Exit,
}

} // verus!
