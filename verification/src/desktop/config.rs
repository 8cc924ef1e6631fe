//! Configuration of the desktop bundle and the files derived from it.

use vstd::prelude::*;
use vstd::string::StringExecFns;
use crate::text::{decimal_text, pairs_view, push_decimal};

verus! {

/// Secrets and ports of the desktop bundle.
#[derive(Debug, Clone)]
pub struct AppConfig {
    pub initialized: bool,
    pub db_password: String,
    pub auth_secret: String,
    pub download_token_secret: String,
    pub encryption_key: String,
    pub daemon_token_id: String,
    pub daemon_token: String,
    pub api_port: u16,
    pub daemon_port: u16,
    pub sftp_port: u16,
}

/// The ports on which processes of an earlier run may still listen: web, API
/// and daemon.
pub fn stale_process_ports() -> (ports: [u16; 3])
    ensures
        ports@ == seq![3000u16, 3001u16, 8080u16],
{
    let ports: [u16; 3] = [3000, 3001, 8080];
    assert(ports@ =~= seq![3000u16, 3001u16, 8080u16]);
    ports
}

/// The URL of the bundled database for a password.
pub open spec fn database_url_of(db_password: Seq<char>) -> Seq<char> {
    "postgresql://stellar:"@ + db_password + "@localhost:5432/stellar"@
}

/// `http://localhost:{port}`.
pub open spec fn local_url(port: u16) -> Seq<char> {
    "http://localhost:"@ + decimal_text(port as nat)
}

/// One line `key = "value"` of a TOML table.
pub open spec fn text_line(key: Seq<char>, value: Seq<char>) -> Seq<char> {
    key + " = \""@ + value + "\"\n"@
}

/// One line `key = number` of a TOML table.
pub open spec fn number_line(key: Seq<char>, value: u16) -> Seq<char> {
    key + " = "@ + decimal_text(value as nat) + "\n"@
}

/// The `[system]` table for a data directory.
pub open spec fn system_table(data_dir: Seq<char>) -> Seq<char> {
    "\n[system]\n"@ + text_line("root_directory"@, data_dir + "/stellar"@) + text_line(
        "data_directory"@,
        data_dir + "/stellar/volumes"@,
    ) + text_line("backup_directory"@, data_dir + "/backups"@) + text_line(
        "archive_directory"@,
        data_dir + "/stellar/archives"@,
    ) + text_line("tmp_directory"@, data_dir + "/stellar/tmp"@) + text_line(
        "log_directory"@,
        data_dir + "/logs"@,
    ) + "username = \"stellar\"\ntimezone = \"UTC\"\ndisk_check_interval = 60\n"@
}

/// The daemon's configuration file.
pub open spec fn daemon_toml(c: AppConfig, data_dir: Seq<char>, docker_socket: Seq<char>) -> Seq<char> {
    "# StellarStack Daemon Configuration (auto-generated)\n\n[api]\nhost = \"127.0.0.1\"\n"@
        + number_line("port"@, c.daemon_port) + "upload_limit = 100\n"@ + system_table(data_dir)
        + "\n[docker]\n"@ + text_line("socket"@, docker_socket)
        + "tmpfs_size = 100\ncontainer_pid_limit = 512\n\n[remote]\n"@ + text_line(
        "url"@,
        local_url(c.api_port),
    ) + text_line("token_id"@, c.daemon_token_id@) + text_line("token"@, c.daemon_token@)
        + "timeout = 30\n\n[sftp]\nenabled = true\nbind_address = \"0.0.0.0\"\n"@ + number_line(
        "bind_port"@,
        c.sftp_port,
    ) + "read_only = false\n"@ + text_line("host_key"@, data_dir + "/ssh_host_key"@)
        + "\n[redis]\nenabled = true\nurl = \"redis://127.0.0.1:6379\"\nprefix = \"stellar\"\n"@
}

/// The environment of the API process, in order.
pub open spec fn api_env_of(c: AppConfig) -> Seq<(Seq<char>, Seq<char>)> {
    seq![
        ("DATABASE_URL"@, database_url_of(c.db_password@)),
        ("BETTER_AUTH_SECRET"@, c.auth_secret@),
        ("FRONTEND_URL"@, local_url(c.api_port)),
        ("API_URL"@, local_url(c.api_port)),
        ("PORT"@, decimal_text(c.api_port as nat)),
        ("HOST"@, "127.0.0.1"@),
        ("DOWNLOAD_TOKEN_SECRET"@, c.download_token_secret@),
        ("ENCRYPTION_KEY"@, c.encryption_key@),
        ("DESKTOP_MODE"@, "true"@),
    ]
}

fn push_text_line(out: &mut String, key: &str, value: &str)
    ensures
        final(out)@ == old(out)@ + text_line(key@, value@),
{
    out.append(key);
    out.append(" = \"");
    out.append(value);
    out.append("\"\n");
    assert(out@ =~= old(out)@ + text_line(key@, value@));
}

fn push_path_line(out: &mut String, key: &str, data_dir: &str, tail: &str)
    ensures
        final(out)@ == old(out)@ + text_line(key@, data_dir@ + tail@),
{
    out.append(key);
    out.append(" = \"");
    out.append(data_dir);
    out.append(tail);
    out.append("\"\n");
    assert(out@ =~= old(out)@ + text_line(key@, data_dir@ + tail@));
}

fn push_number_line(out: &mut String, key: &str, value: u16)
    ensures
        final(out)@ == old(out)@ + number_line(key@, value),
{
    out.append(key);
    out.append(" = ");
    push_decimal(out, value as u64);
    out.append("\n");
    assert(out@ =~= old(out)@ + number_line(key@, value));
}

fn push_system_table(out: &mut String, data_dir: &str)
    ensures
        final(out)@ == old(out)@ + system_table(data_dir@),
{
    out.append("\n[system]\n");
    push_path_line(out, "root_directory", data_dir, "/stellar");
    push_path_line(out, "data_directory", data_dir, "/stellar/volumes");
    push_path_line(out, "backup_directory", data_dir, "/backups");
    push_path_line(out, "archive_directory", data_dir, "/stellar/archives");
    push_path_line(out, "tmp_directory", data_dir, "/stellar/tmp");
    push_path_line(out, "log_directory", data_dir, "/logs");
    out.append("username = \"stellar\"\ntimezone = \"UTC\"\ndisk_check_interval = 60\n");
    assert(out@ =~= old(out)@ + system_table(data_dir@));
}

fn local_url_string(port: u16) -> (s: String)
    ensures
        s@ == local_url(port),
{
    let mut s = String::from_str("http://localhost:");
    push_decimal(&mut s, port as u64);
    s
}

fn port_string(port: u16) -> (s: String)
    ensures
        s@ == decimal_text(port as nat),
{
    crate::text::decimal_string(port as u64)
}

impl AppConfig {
    /// An uninitialised configuration with the given secrets and the default
    /// ports: API 3001, daemon 8080, SFTP 2022.
    pub fn with_secrets(
        db_password: String,
        auth_secret: String,
        download_token_secret: String,
        encryption_key: String,
    ) -> (c: Self)
        ensures
            !c.initialized,
            c.db_password == db_password,
            c.auth_secret == auth_secret,
            c.download_token_secret == download_token_secret,
            c.encryption_key == encryption_key,
            c.daemon_token_id@.len() == 0,
            c.daemon_token@.len() == 0,
            c.api_port == 3001,
            c.daemon_port == 8080,
            c.sftp_port == 2022,
    {
        AppConfig {
            initialized: false,
            db_password,
            auth_secret,
            download_token_secret,
            encryption_key,
            daemon_token_id: String::new(),
            daemon_token: String::new(),
            api_port: 3001,
            daemon_port: 8080,
            sftp_port: 2022,
        }
    }

    /// The URL of the bundled database.
    pub fn database_url(&self) -> (url: String)
        ensures
            url@ == database_url_of(self.db_password@),
    {
        let mut url = String::from_str("postgresql://stellar:");
        url.append(self.db_password.as_str());
        url.append("@localhost:5432/stellar");
        url
    }

    /// The environment of the API process.
    pub fn api_env_vars(&self) -> (vars: Vec<(String, String)>)
        ensures
            pairs_view(vars@) == api_env_of(*self),
    {
        let mut vars: Vec<(String, String)> = Vec::new();
        vars.push((String::from_str("DATABASE_URL"), self.database_url()));
        vars.push((String::from_str("BETTER_AUTH_SECRET"), self.auth_secret.clone()));
        vars.push((String::from_str("FRONTEND_URL"), local_url_string(self.api_port)));
        vars.push((String::from_str("API_URL"), local_url_string(self.api_port)));
        vars.push((String::from_str("PORT"), port_string(self.api_port)));
        vars.push((String::from_str("HOST"), String::from_str("127.0.0.1")));
        vars.push((String::from_str("DOWNLOAD_TOKEN_SECRET"), self.download_token_secret.clone()));
        vars.push((String::from_str("ENCRYPTION_KEY"), self.encryption_key.clone()));
        vars.push((String::from_str("DESKTOP_MODE"), String::from_str("true")));
        assert(pairs_view(vars@) =~= api_env_of(*self));
        vars
    }

    /// The daemon's configuration file for a data directory and a container
    /// runtime socket.
    pub fn daemon_config_toml(&self, data_dir: &str, docker_socket: &str) -> (text: String)
        ensures
            text@ == daemon_toml(*self, data_dir@, docker_socket@),
    {
        let mut text = String::from_str(
            "# StellarStack Daemon Configuration (auto-generated)\n\n[api]\nhost = \"127.0.0.1\"\n",
        );
        push_number_line(&mut text, "port", self.daemon_port);
        text.append("upload_limit = 100\n");
        push_system_table(&mut text, data_dir);
        text.append("\n[docker]\n");
        push_text_line(&mut text, "socket", docker_socket);
        text.append("tmpfs_size = 100\ncontainer_pid_limit = 512\n\n[remote]\n");
        let url = local_url_string(self.api_port);
        push_text_line(&mut text, "url", url.as_str());
        push_text_line(&mut text, "token_id", self.daemon_token_id.as_str());
        push_text_line(&mut text, "token", self.daemon_token.as_str());
        text.append("timeout = 30\n\n[sftp]\nenabled = true\nbind_address = \"0.0.0.0\"\n");
        push_number_line(&mut text, "bind_port", self.sftp_port);
        text.append("read_only = false\n");
        push_path_line(&mut text, "host_key", data_dir, "/ssh_host_key");
        text.append(
            "\n[redis]\nenabled = true\nurl = \"redis://127.0.0.1:6379\"\nprefix = \"stellar\"\n",
        );
        assert(text@ =~= daemon_toml(*self, data_dir@, docker_socket@));
        text
    }
}

/// Health of the bundle as shown in the system tray.
#[derive(Debug, Clone, Copy, PartialEq, Eq, Structural)]
pub enum HealthStatus {
    Starting,
    Healthy,
    Degraded,
    Failed,
}

} // verus!
