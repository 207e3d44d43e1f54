use vstd::prelude::*;
use vstd::string::*;

use crate::error::{CommandKind, ManagerError};
use crate::extract::{extract_field_flexible, flexible_field_value};
use crate::models::{OwnerAddResult, ServiceStatus, WalletInfo};
use crate::text::{chars_of, trim, trim_span};

verus! {

/// Faucet used when a wallet is initialised without one.
pub const DEFAULT_FAUCET_URL: &'static str = "https://faucet.testnet-conway.linera.net";

/// What `String::from_utf8_lossy` makes of a byte string.
pub uninterp spec fn lossy_text(b: Seq<u8>) -> Seq<char>;

/// Decimal digits of `n`, most significant first.
pub open spec fn decimal(n: nat) -> Seq<char>
    decreases n,
{
    if n < 10 {
        seq!["0123456789"@[n as int]]
    } else {
        decimal(n / 10).push("0123456789"@[(n % 10) as int])
    }
}

/// The texts of a list of strings.
pub open spec fn texts(v: Seq<String>) -> Seq<Seq<char>> {
    v.map_values(|s: String| s@)
}

/// Relies on `String::from_utf8_lossy`: the text of a byte string, with invalid
/// sequences replaced; it depends on the bytes alone.
#[verifier::external_body]
fn decode_lossy(b: &Vec<u8>) -> (r: String)
    ensures
        r@ == lossy_text(b@),
{
    String::from_utf8_lossy(b.as_slice()).into_owned()
}

fn digit_str(d: u16) -> (r: &'static str)
    requires
        d < 10,
    ensures
        r@ == seq!["0123456789"@[d as int]],
{
    proof {
        reveal_strlit("0123456789");
        reveal_strlit("0");
        reveal_strlit("1");
        reveal_strlit("2");
        reveal_strlit("3");
        reveal_strlit("4");
        reveal_strlit("5");
        reveal_strlit("6");
        reveal_strlit("7");
        reveal_strlit("8");
        reveal_strlit("9");
    }
    let r = if d == 0 {
        "0"
    } else if d == 1 {
        "1"
    } else if d == 2 {
        "2"
    } else if d == 3 {
        "3"
    } else if d == 4 {
        "4"
    } else if d == 5 {
        "5"
    } else if d == 6 {
        "6"
    } else if d == 7 {
        "7"
    } else if d == 8 {
        "8"
    } else {
        "9"
    };
    assert(r@ =~= seq!["0123456789"@[d as int]]);
    r
}

/// The decimal digits of a port number.
pub(crate) fn port_text(p: u16) -> (r: String)
    ensures
        r@ == decimal(p as nat),
    decreases p,
{
    if p < 10 {
        String::from_str(digit_str(p))
    } else {
        let mut s = port_text(p / 10);
        s.append(digit_str(p % 10));
        proof {
            assert(s@ =~= decimal((p / 10) as nat).push("0123456789"@[(p % 10) as int]));
        }
        s
    }
}

fn push_text(v: &mut Vec<String>, s: &str)
    ensures
        texts(final(v)@) == texts(old(v)@).push(s@),
{
    let t = s.to_owned();
    v.push(t);
    proof {
        assert(texts(final(v)@) =~= texts(old(v)@).push(s@));
    }
}

/// Exit status and captured streams of a one-shot command.
#[derive(Debug, Clone, PartialEq, Eq)]
pub struct CommandOutput {
    pub success: bool,
    pub stdout: Vec<u8>,
    pub stderr: Vec<u8>,
}

/// The running service: its process handle, process id and bound port.
#[derive(Debug)]
pub struct ServiceInstance<H> {
    pub handle: H,
    pub pid: Option<u32>,
    pub port: u16,
}

/// Supervisor of the node binary: its paths, and the one service it may have running.
/// Handle and port sit in one optional record, so they are set and cleared together.
#[derive(Debug)]
pub struct LineraManager<H> {
    linera_bin: String,
    wallet_path: String,
    keystore_path: String,
    service: Option<ServiceInstance<H>>,
}

pub open spec fn status_of<H>(s: Option<ServiceInstance<H>>) -> ServiceStatus {
    match s {
        Some(i) => ServiceStatus { running: true, pid: i.pid, port: Some(i.port) },
        None => ServiceStatus { running: false, pid: None, port: None },
    }
}

/// `--wallet <w> --keystore <k>`, which every invocation carries.
pub open spec fn path_args(w: Seq<char>, k: Seq<char>) -> Seq<Seq<char>> {
    seq!["--wallet"@, w, "--keystore"@, k]
}

pub open spec fn or_default(v: Option<String>, d: Seq<char>) -> Seq<char> {
    match v {
        Some(s) => s@,
        None => d,
    }
}

/// The output of `wallet show` that is searched: standard error, a newline, standard output.
pub open spec fn combined_output(out: CommandOutput) -> Seq<char> {
    lossy_text(out.stderr@) + "\n"@ + lossy_text(out.stdout@)
}

/// `r` fails with `CommandFailed` carrying the decoded standard error exactly when the
/// command exited with failure.
pub open spec fn failure_or<T>(out: &CommandOutput, c: CommandKind, r: Result<T, ManagerError>) -> bool {
    !out.success <==> (r matches Err(ManagerError::CommandFailed { command, stderr })
        && command == c && stderr@ == lossy_text(out.stderr@))
}

/// `r` is the refusal of an empty key list.
pub open spec fn refuses_no_keys<T>(r: Result<T, ManagerError>) -> bool {
    r matches Err(ManagerError::InvalidArgument { message }) && message@
        == "At least one public key is required"@
}

fn command_failed(c: CommandKind, out: &CommandOutput) -> (r: ManagerError)
    ensures
        r matches ManagerError::CommandFailed { command, stderr } && command == c && stderr@
            == lossy_text(out.stderr@),
{
    ManagerError::CommandFailed { command: c, stderr: decode_lossy(&out.stderr) }
}

/// The wallet's chain id and default owner, read from the decoded standard error and
/// standard output of `wallet show`, searched together as `stderr`, a newline, `stdout`;
/// a wallet without an owner key gets `No owner key`.
pub fn wallet_info_from_text(stderr: &str, stdout: &str) -> (r: Result<WalletInfo, ManagerError>)
    ensures
        match flexible_field_value(stderr@ + "\n"@ + stdout@, "Chain ID"@) {
            None => r matches Err(ManagerError::FieldNotFound { field }) && field@ == "Chain ID"@,
            Some(c) => r is Ok && r->Ok_0.chain_id@ == c && r->Ok_0.public_key@ == match
                flexible_field_value(stderr@ + "\n"@ + stdout@, "Default owner"@) {
                Some(k) => k,
                None => "No owner key"@,
            },
        },
{
    let mut combined = stderr.to_owned();
    combined.append("\n");
    combined.append(stdout);
    let chain_id = match extract_field_flexible(combined.as_str(), "Chain ID") {
        Ok(c) => c,
        Err(e) => return Err(e),
    };
    let public_key = match extract_field_flexible(combined.as_str(), "Default owner") {
        Ok(k) => k,
        Err(_) => String::from_str("No owner key"),
    };
    Ok(WalletInfo { chain_id, public_key })
}

/// The public key printed by `keygen`: its decoded standard output, trimmed.
pub fn trimmed_key(text: &str) -> (r: String)
    ensures
        r@ == trim(text@),
{
    let cs = chars_of(text);
    let (a, b) = trim_span(&cs, 0, cs.len());
    proof {
        assert(cs@.subrange(0, cs@.len() as int) =~= cs@);
    }
    text.substring_char(a, b).to_owned()
}

impl<H> LineraManager<H> {
    pub closed spec fn service(&self) -> Option<ServiceInstance<H>> {
        self.service
    }

    pub closed spec fn bin(&self) -> Seq<char> {
        self.linera_bin@
    }

    pub closed spec fn wallet(&self) -> Seq<char> {
        self.wallet_path@
    }

    pub closed spec fn keystore(&self) -> Seq<char> {
        self.keystore_path@
    }

    pub open spec fn running(&self) -> bool {
        self.service() is Some
    }

    pub open spec fn status_spec(&self) -> ServiceStatus {
        status_of(self.service())
    }

    pub open spec fn same_paths(&self, other: &Self) -> bool {
        self.bin() == other.bin() && self.wallet() == other.wallet() && self.keystore()
            == other.keystore()
    }

    /// What a start request meets: `AlreadyRunning` while a service is recorded.
    pub open spec fn start_refusal(&self) -> Option<ManagerError> {
        if self.running() {
            Some(ManagerError::AlreadyRunning)
        } else {
            None
        }
    }

    pub open spec fn base_args(&self) -> Seq<Seq<char>> {
        path_args(self.wallet(), self.keystore())
    }

    /// A supervisor with the paths given, or those under `home` where none is given:
    /// `<home>/bin/linera`, `<home>/linera-wallet.json`, `<home>/linera-keystore.json`.
    pub fn new(
        home: &str,
        linera_bin: Option<String>,
        wallet_path: Option<String>,
        keystore_path: Option<String>,
    ) -> (r: Self)
        ensures
            r.bin() == or_default(linera_bin, home@ + "/bin/linera"@),
            r.wallet() == or_default(wallet_path, home@ + "/linera-wallet.json"@),
            r.keystore() == or_default(keystore_path, home@ + "/linera-keystore.json"@),
            !r.running(),
    {
        let linera_bin = match linera_bin {
            Some(b) => b,
            None => home.to_owned().concat("/bin/linera"),
        };
        let wallet_path = match wallet_path {
            Some(w) => w,
            None => home.to_owned().concat("/linera-wallet.json"),
        };
        let keystore_path = match keystore_path {
            Some(k) => k,
            None => home.to_owned().concat("/linera-keystore.json"),
        };
        LineraManager { linera_bin, wallet_path, keystore_path, service: None }
    }

    pub fn linera_bin(&self) -> (r: &str)
        ensures
            r@ == self.bin(),
    {
        self.linera_bin.as_str()
    }

    pub fn is_running(&self) -> (r: bool)
        ensures
            r == self.running(),
    {
        self.service.is_some()
    }

    pub fn get_pid(&self) -> (r: Option<u32>)
        ensures
            r == self.status_spec().pid,
    {
        match &self.service {
            Some(i) => i.pid,
            None => None,
        }
    }

    pub fn get_port(&self) -> (r: Option<u16>)
        ensures
            r == self.status_spec().port,
    {
        match &self.service {
            Some(i) => Some(i.port),
            None => None,
        }
    }

    /// Running flag, process id and port, read together.
    pub fn status(&self) -> (r: ServiceStatus)
        ensures
            r == self.status_spec(),
    {
        ServiceStatus { running: self.is_running(), pid: self.get_pid(), port: self.get_port() }
    }

    fn path_args(&self) -> (r: Vec<String>)
        ensures
            texts(r@) == self.base_args(),
    {
        let mut v: Vec<String> = Vec::new();
        push_text(&mut v, "--wallet");
        push_text(&mut v, self.wallet_path.as_str());
        push_text(&mut v, "--keystore");
        push_text(&mut v, self.keystore_path.as_str());
        proof {
            assert(texts(v@) =~= self.base_args());
        }
        v
    }

    /// First step of a start: refused with `AlreadyRunning` while a service is
    /// recorded, else the arguments that launch the service on `port` (in-memory storage).
    pub fn start_service(&self, port: u16) -> (r: Result<Vec<String>, ManagerError>)
        ensures
            match self.start_refusal() {
                Some(e) => r == Err::<Vec<String>, ManagerError>(e),
                None => r is Ok && texts(r->Ok_0@) == self.base_args() + seq![
                    "--storage"@,
                    "memory"@,
                    "service"@,
                    "--port"@,
                    decimal(port as nat),
                ],
            },
    {
        if self.service.is_some() {
            return Err(ManagerError::AlreadyRunning);
        }
        let mut v = self.path_args();
        push_text(&mut v, "--storage");
        push_text(&mut v, "memory");
        push_text(&mut v, "service");
        push_text(&mut v, "--port");
        let p = port_text(port);
        push_text(&mut v, p.as_str());
        proof {
            assert(texts(v@) =~= self.base_args() + seq![
                "--storage"@,
                "memory"@,
                "service"@,
                "--port"@,
                decimal(port as nat),
            ]);
        }
        Ok(v)
    }

    /// Second step of a start: records the launched process and its port.
    pub fn service_started(&mut self, handle: H, pid: Option<u32>, port: u16)
        requires
            !old(self).running(),
        ensures
            final(self).service() == Some(ServiceInstance { handle, pid, port }),
            final(self).same_paths(old(self)),
    {
        self.service = Some(ServiceInstance { handle, pid, port });
    }

    /// Clears the recorded service and hands its handle to the caller, which then
    /// signals and reaps the process; refused with `NotRunning`, changing nothing,
    /// when none is recorded.
    pub fn stop_service(&mut self) -> (r: Result<ServiceInstance<H>, ManagerError>)
        ensures
            final(self).same_paths(old(self)),
            !final(self).running(),
            match old(self).service() {
                Some(i) => r == Ok::<ServiceInstance<H>, ManagerError>(i),
                None => r == Err::<ServiceInstance<H>, ManagerError>(ManagerError::NotRunning)
                    && *final(self) == *old(self),
            },
    {
        match self.service.take() {
            Some(i) => Ok(i),
            None => Err(ManagerError::NotRunning),
        }
    }

    /// Arguments of `wallet init` with the faucet given, or the default one.
    pub fn init_wallet_command(&self, faucet_url: Option<&str>) -> (r: Vec<String>)
        ensures
            texts(r@) == self.base_args() + seq![
                "wallet"@,
                "init"@,
                "--faucet"@,
                match faucet_url {
                    Some(f) => f@,
                    None => DEFAULT_FAUCET_URL@,
                },
            ],
    {
        let faucet = match faucet_url {
            Some(f) => f,
            None => DEFAULT_FAUCET_URL,
        };
        let mut v = self.path_args();
        push_text(&mut v, "wallet");
        push_text(&mut v, "init");
        push_text(&mut v, "--faucet");
        push_text(&mut v, faucet);
        proof {
            assert(texts(v@) =~= self.base_args() + seq![
                "wallet"@,
                "init"@,
                "--faucet"@,
                faucet@,
            ]);
        }
        v
    }

    /// Outcome of `wallet init`: on success the caller goes on with `wallet show`.
    pub fn init_wallet(&self, output: &CommandOutput) -> (r: Result<(), ManagerError>)
        ensures
            failure_or(output, CommandKind::WalletInit, r),
            output.success ==> r is Ok,
    {
        if !output.success {
            return Err(command_failed(CommandKind::WalletInit, output));
        }
        Ok(())
    }

    /// Arguments of `wallet show`.
    pub fn wallet_show_command(&self) -> (r: Vec<String>)
        ensures
            texts(r@) == self.base_args() + seq!["wallet"@, "show"@],
    {
        let mut v = self.path_args();
        push_text(&mut v, "wallet");
        push_text(&mut v, "show");
        proof {
            assert(texts(v@) =~= self.base_args() + seq!["wallet"@, "show"@]);
        }
        v
    }

    /// Reads the wallet's chain id and default owner from the output of `wallet show`
    /// (standard error and output together); a wallet without an owner key gets
    /// `No owner key`.
    pub fn get_wallet_info(&self, output: &CommandOutput) -> (r: Result<WalletInfo, ManagerError>)
        ensures
            failure_or(output, CommandKind::WalletShow, r),
            output.success ==> match flexible_field_value(combined_output(*output), "Chain ID"@) {
                None => r matches Err(ManagerError::FieldNotFound { field }) && field@ == "Chain ID"@,
                Some(c) => r is Ok && r->Ok_0.chain_id@ == c && r->Ok_0.public_key@ == match
                    flexible_field_value(combined_output(*output), "Default owner"@) {
                    Some(k) => k,
                    None => "No owner key"@,
                },
            },
    {
        if !output.success {
            return Err(command_failed(CommandKind::WalletShow, output));
        }
        let err = decode_lossy(&output.stderr);
        let out = decode_lossy(&output.stdout);
        wallet_info_from_text(err.as_str(), out.as_str())
    }

    /// Arguments of `keygen`.
    pub fn keygen_command(&self) -> (r: Vec<String>)
        ensures
            texts(r@) == self.base_args() + seq!["keygen"@],
    {
        let mut v = self.path_args();
        push_text(&mut v, "keygen");
        proof {
            assert(texts(v@) =~= self.base_args() + seq!["keygen"@]);
        }
        v
    }

    /// The new public key: the standard output of `keygen`, trimmed.
    pub fn keygen(&self, output: &CommandOutput) -> (r: Result<String, ManagerError>)
        ensures
            failure_or(output, CommandKind::Keygen, r),
            output.success ==> r is Ok && r->Ok_0@ == trim(lossy_text(output.stdout@)),
    {
        if !output.success {
            return Err(command_failed(CommandKind::Keygen, output));
        }
        let text = decode_lossy(&output.stdout);
        Ok(trimmed_key(text.as_str()))
    }

    /// Arguments of `change-ownership` for `chain_id`: one `--owner-public-keys` flag
    /// followed by the keys in order; an empty
    /// key list is refused with `InvalidArgument`, before any command exists.
    pub fn add_owner_command(&self, chain_id: &str, public_keys: &Vec<String>) -> (r: Result<
        Vec<String>,
        ManagerError,
    >)
        ensures
            public_keys@.len() == 0 ==> refuses_no_keys(r),
            public_keys@.len() > 0 ==> r is Ok && texts(r->Ok_0@) == self.base_args() + seq![
                "change-ownership"@,
                "--chain-id"@,
                chain_id@,
                "--owner-public-keys"@,
            ] + texts(public_keys@),
    {
        if public_keys.len() == 0 {
            return Err(
                ManagerError::InvalidArgument {
                    message: String::from_str("At least one public key is required"),
                },
            );
        }
        let mut v = self.path_args();
        push_text(&mut v, "change-ownership");
        push_text(&mut v, "--chain-id");
        push_text(&mut v, chain_id);
        push_text(&mut v, "--owner-public-keys");
        let ghost head = texts(v@);
        let mut i: usize = 0;
        proof {
            assert(head + texts(public_keys@).take(0) =~= head);
        }
        while i < public_keys.len()
            invariant
                i <= public_keys@.len(),
                texts(v@) == head + texts(public_keys@).take(i as int),
            decreases public_keys@.len() - i,
        {
            push_text(&mut v, public_keys[i].as_str());
            proof {
                let ks = texts(public_keys@);
                assert(ks[i as int] == public_keys@[i as int]@);
                assert(texts(v@) =~= head + ks.take(i + 1));
            }
            i = i + 1;
        }
        proof {
            assert(texts(public_keys@).take(i as int) =~= texts(public_keys@));
            assert(head =~= self.base_args() + seq![
                "change-ownership"@,
                "--chain-id"@,
                chain_id@,
                "--owner-public-keys"@,
            ]);
        }
        Ok(v)
    }

    /// Outcome of `change-ownership`: the chain and the keys handed in, echoed.
    pub fn add_owner(&self, chain_id: &str, public_keys: Vec<String>, output: &CommandOutput) -> (r:
        Result<OwnerAddResult, ManagerError>)
        ensures
            public_keys@.len() == 0 ==> refuses_no_keys(r),
            public_keys@.len() > 0 ==> failure_or(output, CommandKind::ChangeOwnership, r),
            public_keys@.len() > 0 && output.success ==> r is Ok && r->Ok_0.success
                && r->Ok_0.chain_id@ == chain_id@ && r->Ok_0.owners@ == public_keys@,
    {
        if public_keys.len() == 0 {
            return Err(
                ManagerError::InvalidArgument {
                    message: String::from_str("At least one public key is required"),
                },
            );
        }
        if !output.success {
            return Err(command_failed(CommandKind::ChangeOwnership, output));
        }
        Ok(OwnerAddResult { success: true, chain_id: chain_id.to_owned(), owners: public_keys })
    }
}

} // verus!
