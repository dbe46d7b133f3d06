//! The configuration snapshot and its three-layer resolution.
//!
//! Every setting is gathered from an explicit command-line value when one
//! is present, else from its environment variable when that is set, else
//! from a compiled-in default. Numeric text that fails to coerce, and a
//! bind address that parses as neither IPv4 nor IPv6, are fatal: no
//! snapshot is produced.

use vstd::prelude::*;

use crate::ip::BindAddr;
use crate::ip::ipv4_octets;
use crate::ip::is_ipv4;
use crate::ip::parse_ipv4;
use crate::num::is_uint_str;
use crate::num::parse_uint_upto;
use crate::num::uint_val;
use crate::path::norm_path;
use crate::path::PublicUrl;

verus! {

/// The explicit source for one field: the command-line value when present,
/// else the environment value, else nothing.
pub open spec fn src_of(flag: Option<Seq<char>>, env: Option<Seq<char>>) -> Option<Seq<char>> {
    if flag is Some {
        flag
    } else {
        env
    }
}

/// The resolved text of a string field with a compiled-in default.
pub open spec fn resolved_string(
    flag: Option<Seq<char>>,
    env: Option<Seq<char>>,
    default: Seq<char>,
) -> Seq<char> {
    match src_of(flag, env) {
        Some(s) => s,
        None => default,
    }
}

/// A feature toggle: true when its flag is present, or when its
/// environment variable is set to a non-empty (truthy) value. There is no
/// explicit "false" token — toggles are presence flags.
pub open spec fn resolved_bool(flag: bool, env: Option<Seq<char>>) -> bool {
    flag || (match env {
        Some(e) => e.len() > 0,
        None => false,
    })
}

/// Whether the explicit source of a numeric field, if there is one, is a
/// well-formed decimal numeral no larger than `max`.
pub open spec fn num_ok(src: Option<Seq<char>>, max: nat) -> bool {
    match src {
        Some(s) => is_uint_str(s) && uint_val(s) <= max,
        None => true,
    }
}

/// The value of a numeric field: its explicit source when one is present,
/// else the compiled-in default.
pub open spec fn resolved_num(src: Option<Seq<char>>, default: nat) -> nat {
    match src {
        Some(s) => uint_val(s),
        None => default,
    }
}

/// The resolved text of a path field: the explicit source, normalized.
pub open spec fn resolved_path(
    flag: Option<Seq<char>>,
    env: Option<Seq<char>>,
) -> Option<Seq<char>> {
    match src_of(flag, env) {
        Some(s) => Some(norm_path(s)),
        None => None,
    }
}

/// A numeric field, named when its coercion fails.
#[derive(Clone, Copy, Debug, PartialEq, Eq, Structural)]
pub enum NumField {
    Port,
    Threads,
    GcDays,
    DefaultBurnAfter,
    MaxFileSizeEncryptedMb,
    MaxFileSizeUnencryptedMb,
}

/// A fatal configuration error: the process must not start serving.
#[derive(Clone, Copy, Debug, PartialEq, Eq, Structural)]
pub enum ConfigError {
    /// An explicit numeric source is not a decimal unsigned integer that
    /// fits the field's width.
    InvalidNumber(NumField),
    /// An explicit bind-address source is neither dotted-quad IPv4 nor a
    /// recognized IPv6 address.
    InvalidAddress,
}

/// The raw command-line layer: one entry per setting, exactly as supplied.
/// Toggles are presence flags; every valued option carries its text
/// unparsed.
#[derive(Clone, Debug)]
pub struct CliInput {
    pub auth_basic_username: Option<String>,
    pub auth_basic_password: Option<String>,
    pub auth_admin_username: Option<String>,
    pub auth_admin_password: Option<String>,
    pub editable: bool,
    pub footer_text: Option<String>,
    pub hide_footer: bool,
    pub hide_header: bool,
    pub hide_logo: bool,
    pub no_listing: bool,
    pub highlightsyntax: bool,
    pub port: Option<String>,
    pub bind: Option<String>,
    pub private: bool,
    pub pure_html: bool,
    pub json_db: bool,
    pub public_path: Option<String>,
    pub short_path: Option<String>,
    pub readonly: bool,
    pub show_read_stats: bool,
    pub title: Option<String>,
    pub threads: Option<String>,
    pub gc_days: Option<String>,
    pub enable_burn_after: bool,
    pub default_burn_after: Option<String>,
    pub wide: bool,
    pub qr: bool,
    pub eternal_pasta: bool,
    pub enable_readonly: bool,
    pub default_expiry: Option<String>,
    pub no_file_upload: bool,
    pub custom_css: Option<String>,
    pub hash_ids: bool,
    pub encryption_client_side: bool,
    pub encryption_server_side: bool,
    pub max_file_size_encrypted_mb: Option<String>,
    pub max_file_size_unencrypted_mb: Option<String>,
}

/// The environment layer: for each setting, the text of its environment
/// variable when that variable is set.
#[derive(Clone, Debug)]
pub struct EnvInput {
    pub auth_basic_username: Option<String>,
    pub auth_basic_password: Option<String>,
    pub auth_admin_username: Option<String>,
    pub auth_admin_password: Option<String>,
    pub editable: Option<String>,
    pub footer_text: Option<String>,
    pub hide_footer: Option<String>,
    pub hide_header: Option<String>,
    pub hide_logo: Option<String>,
    pub no_listing: Option<String>,
    pub highlightsyntax: Option<String>,
    pub port: Option<String>,
    pub bind: Option<String>,
    pub private: Option<String>,
    pub pure_html: Option<String>,
    pub json_db: Option<String>,
    pub public_path: Option<String>,
    pub short_path: Option<String>,
    pub readonly: Option<String>,
    pub show_read_stats: Option<String>,
    pub title: Option<String>,
    pub threads: Option<String>,
    pub gc_days: Option<String>,
    pub enable_burn_after: Option<String>,
    pub default_burn_after: Option<String>,
    pub wide: Option<String>,
    pub qr: Option<String>,
    pub eternal_pasta: Option<String>,
    pub enable_readonly: Option<String>,
    pub default_expiry: Option<String>,
    pub no_file_upload: Option<String>,
    pub custom_css: Option<String>,
    pub hash_ids: Option<String>,
    pub encryption_client_side: Option<String>,
    pub encryption_server_side: Option<String>,
    pub max_file_size_encrypted_mb: Option<String>,
    pub max_file_size_unencrypted_mb: Option<String>,
}

/// The immutable configuration snapshot: every setting resolved, coerced
/// and normalized. Once built it is only ever read.
#[derive(Clone, Debug)]
pub struct Args {
    pub auth_basic_username: Option<String>,
    pub auth_basic_password: Option<String>,
    pub auth_admin_username: String,
    pub auth_admin_password: String,
    pub editable: bool,
    pub footer_text: Option<String>,
    pub hide_footer: bool,
    pub hide_header: bool,
    pub hide_logo: bool,
    pub no_listing: bool,
    pub highlightsyntax: bool,
    pub port: u16,
    pub bind: BindAddr,
    pub private: bool,
    pub pure_html: bool,
    pub json_db: bool,
    pub public_path: Option<PublicUrl>,
    pub short_path: Option<PublicUrl>,
    pub readonly: bool,
    pub show_read_stats: bool,
    pub title: Option<String>,
    pub threads: u8,
    pub gc_days: u16,
    pub enable_burn_after: bool,
    pub default_burn_after: u16,
    pub wide: bool,
    pub qr: bool,
    pub eternal_pasta: bool,
    pub enable_readonly: bool,
    pub default_expiry: String,
    pub no_file_upload: bool,
    pub custom_css: Option<String>,
    pub hash_ids: bool,
    pub encryption_client_side: bool,
    pub encryption_server_side: bool,
    pub max_file_size_encrypted_mb: usize,
    pub max_file_size_unencrypted_mb: usize,
}

/// Resolves a string field with a compiled-in default.
fn resolve_string(flag: &Option<String>, env: &Option<String>, default: &str) -> (r: String)
    ensures
        r@ == resolved_string(flag.deep_view(), env.deep_view(), default@),
{
    match flag {
        Some(s) => s.clone(),
        None => match env {
            Some(s) => s.clone(),
            None => String::from_str(default),
        },
    }
}

/// Resolves an optional string field: the explicit source, or absent.
fn resolve_opt_string(flag: &Option<String>, env: &Option<String>) -> (r: Option<String>)
    ensures
        r.deep_view() == src_of(flag.deep_view(), env.deep_view()),
{
    match flag {
        Some(s) => Some(s.clone()),
        None => match env {
            Some(s) => Some(s.clone()),
            None => None,
        },
    }
}

/// Resolves a feature toggle from flag presence and environment text.
fn resolve_bool(flag: bool, env: &Option<String>) -> (r: bool)
    ensures
        r == resolved_bool(flag, env.deep_view()),
{
    if flag {
        true
    } else {
        match env {
            Some(e) => !e.as_str().is_empty(),
            None => false,
        }
    }
}

/// Resolves a 16-bit numeric field; `None` marks a fatal coercion failure.
fn resolve_u16(flag: &Option<String>, env: &Option<String>, default: u16) -> (r: Option<u16>)
    ensures
        r is Some <==> num_ok(src_of(flag.deep_view(), env.deep_view()), u16::MAX as nat),
        r matches Some(v) ==> v as nat == resolved_num(
            src_of(flag.deep_view(), env.deep_view()),
            default as nat,
        ),
{
    let src: &Option<String> = if flag.is_some() {
        flag
    } else {
        env
    };
    match src {
        None => Some(default),
        Some(s) => match parse_uint_upto(s.as_str(), 65535) {
            Some(v) => Some(v as u16),
            None => None,
        },
    }
}

/// Resolves an 8-bit numeric field; `None` marks a fatal coercion failure.
fn resolve_u8(flag: &Option<String>, env: &Option<String>, default: u8) -> (r: Option<u8>)
    ensures
        r is Some <==> num_ok(src_of(flag.deep_view(), env.deep_view()), u8::MAX as nat),
        r matches Some(v) ==> v as nat == resolved_num(
            src_of(flag.deep_view(), env.deep_view()),
            default as nat,
        ),
{
    let src: &Option<String> = if flag.is_some() {
        flag
    } else {
        env
    };
    match src {
        None => Some(default),
        Some(s) => match parse_uint_upto(s.as_str(), 255) {
            Some(v) => Some(v as u8),
            None => None,
        },
    }
}

/// Resolves a machine-word numeric field; `None` marks a fatal coercion
/// failure.
fn resolve_usize(flag: &Option<String>, env: &Option<String>, default: usize) -> (r: Option<
    usize,
>)
    ensures
        r is Some <==> num_ok(src_of(flag.deep_view(), env.deep_view()), usize::MAX as nat),
        r matches Some(v) ==> v as nat == resolved_num(
            src_of(flag.deep_view(), env.deep_view()),
            default as nat,
        ),
{
    let src: &Option<String> = if flag.is_some() {
        flag
    } else {
        env
    };
    match src {
        None => Some(default),
        Some(s) => match parse_uint_upto(s.as_str(), usize::MAX as u64) {
            Some(v) => Some(v as usize),
            None => None,
        },
    }
}

/// Resolves a path field: the explicit source with one trailing slash
/// stripped, or absent.
fn resolve_path(flag: &Option<String>, env: &Option<String>) -> (r: Option<PublicUrl>)
    ensures
        match resolved_path(flag.deep_view(), env.deep_view()) {
            Some(p) => r is Some && (r->0).0@ == p,
            None => r is None,
        },
{
    let src: &Option<String> = if flag.is_some() {
        flag
    } else {
        env
    };
    match src {
        Some(s) => Some(PublicUrl::from_str(s.as_str())),
        None => None,
    }
}

/// The bind address a resolution produces when it succeeds: the explicit
/// source read as IPv4 when it matches the dotted-quad grammar, else the
/// caller-recognized IPv6 address, with all IPv4 interfaces as default.
pub open spec fn spec_bind(
    flag: Option<Seq<char>>,
    env: Option<Seq<char>>,
    v6: Option<BindAddr>,
) -> BindAddr {
    match src_of(flag, env) {
        None => BindAddr::V4(0u8, 0u8, 0u8, 0u8),
        Some(s) => if is_ipv4(s) {
            let (a, b, c, d) = ipv4_octets(s);
            BindAddr::V4(a as u8, b as u8, c as u8, d as u8)
        } else {
            v6->0
        },
    }
}

/// Whether the bind-address source is acceptable: absent, dotted-quad
/// IPv4, or recognized as IPv6 by the caller.
pub open spec fn bind_ok(
    flag: Option<Seq<char>>,
    env: Option<Seq<char>>,
    v6: Option<BindAddr>,
) -> bool {
    match src_of(flag, env) {
        None => true,
        Some(s) => is_ipv4(s) || v6 is Some,
    }
}

/// Resolves the bind address. `v6` is the caller's reading of the same
/// explicit source text as an IPv6 address, consulted only when the text
/// is not dotted-quad IPv4; with no explicit source the service binds all
/// IPv4 interfaces.
pub fn resolve_bind(flag: &Option<String>, env: &Option<String>, v6: Option<BindAddr>) -> (r:
    Result<BindAddr, ConfigError>)
    ensures
        r is Ok <==> bind_ok(flag.deep_view(), env.deep_view(), v6),
        r matches Ok(b) ==> b == spec_bind(flag.deep_view(), env.deep_view(), v6),
        r is Err ==> (r matches Err(e) && e == ConfigError::InvalidAddress),
{
    let src: &Option<String> = if flag.is_some() {
        flag
    } else {
        env
    };
    match src {
        None => Ok(BindAddr::any_v4()),
        Some(s) => match parse_ipv4(s.as_str()) {
            Some(b) => Ok(b),
            None => match v6 {
                Some(b) => Ok(b),
                None => Err(ConfigError::InvalidAddress),
            },
        },
    }
}

/// Every numeric source coerces within its field's width.
pub open spec fn numerics_ok(cli: CliInput, env: EnvInput) -> bool {
    &&& num_ok(src_of(cli.port.deep_view(), env.port.deep_view()), u16::MAX as nat)
    &&& num_ok(src_of(cli.threads.deep_view(), env.threads.deep_view()), u8::MAX as nat)
    &&& num_ok(src_of(cli.gc_days.deep_view(), env.gc_days.deep_view()), u16::MAX as nat)
    &&& num_ok(
        src_of(cli.default_burn_after.deep_view(), env.default_burn_after.deep_view()),
        u16::MAX as nat,
    )
    &&& num_ok(
        src_of(
            cli.max_file_size_encrypted_mb.deep_view(),
            env.max_file_size_encrypted_mb.deep_view(),
        ),
        usize::MAX as nat,
    )
    &&& num_ok(
        src_of(
            cli.max_file_size_unencrypted_mb.deep_view(),
            env.max_file_size_unencrypted_mb.deep_view(),
        ),
        usize::MAX as nat,
    )
}

/// A resolution succeeds exactly when every numeric source coerces and the
/// bind-address source is acceptable.
pub open spec fn resolution_ok(cli: CliInput, env: EnvInput, v6: Option<BindAddr>) -> bool {
    &&& numerics_ok(cli, env)
    &&& bind_ok(cli.bind.deep_view(), env.bind.deep_view(), v6)
}

/// The error a failing resolution reports: numeric fields are checked in
/// declaration order, the bind address last.
pub open spec fn first_error(cli: CliInput, env: EnvInput, v6: Option<BindAddr>) -> ConfigError {
    if !num_ok(src_of(cli.port.deep_view(), env.port.deep_view()), u16::MAX as nat) {
        ConfigError::InvalidNumber(NumField::Port)
    } else if !num_ok(src_of(cli.threads.deep_view(), env.threads.deep_view()), u8::MAX as nat) {
        ConfigError::InvalidNumber(NumField::Threads)
    } else if !num_ok(src_of(cli.gc_days.deep_view(), env.gc_days.deep_view()), u16::MAX as nat) {
        ConfigError::InvalidNumber(NumField::GcDays)
    } else if !num_ok(
        src_of(cli.default_burn_after.deep_view(), env.default_burn_after.deep_view()),
        u16::MAX as nat,
    ) {
        ConfigError::InvalidNumber(NumField::DefaultBurnAfter)
    } else if !num_ok(
        src_of(
            cli.max_file_size_encrypted_mb.deep_view(),
            env.max_file_size_encrypted_mb.deep_view(),
        ),
        usize::MAX as nat,
    ) {
        ConfigError::InvalidNumber(NumField::MaxFileSizeEncryptedMb)
    } else if !num_ok(
        src_of(
            cli.max_file_size_unencrypted_mb.deep_view(),
            env.max_file_size_unencrypted_mb.deep_view(),
        ),
        usize::MAX as nat,
    ) {
        ConfigError::InvalidNumber(NumField::MaxFileSizeUnencryptedMb)
    } else {
        ConfigError::InvalidAddress
    }
}

/// The snapshot `a` is exactly the resolution of the two input layers over
/// the compiled-in defaults.
pub open spec fn resolves(cli: CliInput, env: EnvInput, v6: Option<BindAddr>, a: Args) -> bool {
    &&& a.auth_basic_username.deep_view() == src_of(
        cli.auth_basic_username.deep_view(),
        env.auth_basic_username.deep_view(),
    )
    &&& a.auth_basic_password.deep_view() == src_of(
        cli.auth_basic_password.deep_view(),
        env.auth_basic_password.deep_view(),
    )
    &&& a.auth_admin_username@ == resolved_string(
        cli.auth_admin_username.deep_view(),
        env.auth_admin_username.deep_view(),
        "admin"@,
    )
    &&& a.auth_admin_password@ == resolved_string(
        cli.auth_admin_password.deep_view(),
        env.auth_admin_password.deep_view(),
        "m1cr0b1n"@,
    )
    &&& a.editable == resolved_bool(cli.editable, env.editable.deep_view())
    &&& a.footer_text.deep_view() == src_of(
        cli.footer_text.deep_view(),
        env.footer_text.deep_view(),
    )
    &&& a.hide_footer == resolved_bool(cli.hide_footer, env.hide_footer.deep_view())
    &&& a.hide_header == resolved_bool(cli.hide_header, env.hide_header.deep_view())
    &&& a.hide_logo == resolved_bool(cli.hide_logo, env.hide_logo.deep_view())
    &&& a.no_listing == resolved_bool(cli.no_listing, env.no_listing.deep_view())
    &&& a.highlightsyntax == resolved_bool(cli.highlightsyntax, env.highlightsyntax.deep_view())
    &&& a.port as nat == resolved_num(src_of(cli.port.deep_view(), env.port.deep_view()), 8080)
    &&& a.bind == spec_bind(cli.bind.deep_view(), env.bind.deep_view(), v6)
    &&& a.private == resolved_bool(cli.private, env.private.deep_view())
    &&& a.pure_html == resolved_bool(cli.pure_html, env.pure_html.deep_view())
    &&& a.json_db == resolved_bool(cli.json_db, env.json_db.deep_view())
    &&& (match resolved_path(cli.public_path.deep_view(), env.public_path.deep_view()) {
        Some(p) => a.public_path is Some && (a.public_path->0).0@ == p,
        None => a.public_path is None,
    })
    &&& (match resolved_path(cli.short_path.deep_view(), env.short_path.deep_view()) {
        Some(p) => a.short_path is Some && (a.short_path->0).0@ == p,
        None => a.short_path is None,
    })
    &&& a.readonly == resolved_bool(cli.readonly, env.readonly.deep_view())
    &&& a.show_read_stats == resolved_bool(cli.show_read_stats, env.show_read_stats.deep_view())
    &&& a.title.deep_view() == src_of(cli.title.deep_view(), env.title.deep_view())
    &&& a.threads as nat == resolved_num(
        src_of(cli.threads.deep_view(), env.threads.deep_view()),
        1,
    )
    &&& a.gc_days as nat == resolved_num(
        src_of(cli.gc_days.deep_view(), env.gc_days.deep_view()),
        90,
    )
    &&& a.enable_burn_after == resolved_bool(
        cli.enable_burn_after,
        env.enable_burn_after.deep_view(),
    )
    &&& a.default_burn_after as nat == resolved_num(
        src_of(cli.default_burn_after.deep_view(), env.default_burn_after.deep_view()),
        0,
    )
    &&& a.wide == resolved_bool(cli.wide, env.wide.deep_view())
    &&& a.qr == resolved_bool(cli.qr, env.qr.deep_view())
    &&& a.eternal_pasta == resolved_bool(cli.eternal_pasta, env.eternal_pasta.deep_view())
    &&& a.enable_readonly == resolved_bool(cli.enable_readonly, env.enable_readonly.deep_view())
    &&& a.default_expiry@ == resolved_string(
        cli.default_expiry.deep_view(),
        env.default_expiry.deep_view(),
        "24hour"@,
    )
    &&& a.no_file_upload == resolved_bool(cli.no_file_upload, env.no_file_upload.deep_view())
    &&& a.custom_css.deep_view() == src_of(cli.custom_css.deep_view(), env.custom_css.deep_view())
    &&& a.hash_ids == resolved_bool(cli.hash_ids, env.hash_ids.deep_view())
    &&& a.encryption_client_side == resolved_bool(
        cli.encryption_client_side,
        env.encryption_client_side.deep_view(),
    )
    &&& a.encryption_server_side == resolved_bool(
        cli.encryption_server_side,
        env.encryption_server_side.deep_view(),
    )
    &&& a.max_file_size_encrypted_mb as nat == resolved_num(
        src_of(
            cli.max_file_size_encrypted_mb.deep_view(),
            env.max_file_size_encrypted_mb.deep_view(),
        ),
        256,
    )
    &&& a.max_file_size_unencrypted_mb as nat == resolved_num(
        src_of(
            cli.max_file_size_unencrypted_mb.deep_view(),
            env.max_file_size_unencrypted_mb.deep_view(),
        ),
        2048,
    )
}

impl Args {
    /// Resolves the whole snapshot from the two input layers. `v6` is the
    /// caller's reading of the explicit bind source as IPv6, consulted
    /// only when that text is not dotted-quad IPv4. Succeeds exactly when
    /// every numeric source coerces and the bind source is acceptable;
    /// otherwise reports the first failing field, numerics in declaration
    /// order and the bind address last.
    pub fn resolve(cli: &CliInput, env: &EnvInput, v6: Option<BindAddr>) -> (r: Result<
        Args,
        ConfigError,
    >)
        ensures
            r is Ok <==> resolution_ok(*cli, *env, v6),
            r matches Ok(a) ==> resolves(*cli, *env, v6, a),
            r matches Err(e) ==> e == first_error(*cli, *env, v6),
    {
        let port = match resolve_u16(&cli.port, &env.port, 8080) {
            Some(v) => v,
            None => {
                return Err(ConfigError::InvalidNumber(NumField::Port));
            },
        };
        let threads = match resolve_u8(&cli.threads, &env.threads, 1) {
            Some(v) => v,
            None => {
                return Err(ConfigError::InvalidNumber(NumField::Threads));
            },
        };
        let gc_days = match resolve_u16(&cli.gc_days, &env.gc_days, 90) {
            Some(v) => v,
            None => {
                return Err(ConfigError::InvalidNumber(NumField::GcDays));
            },
        };
        let default_burn_after = match resolve_u16(
            &cli.default_burn_after,
            &env.default_burn_after,
            0,
        ) {
            Some(v) => v,
            None => {
                return Err(ConfigError::InvalidNumber(NumField::DefaultBurnAfter));
            },
        };
        let max_file_size_encrypted_mb = match resolve_usize(
            &cli.max_file_size_encrypted_mb,
            &env.max_file_size_encrypted_mb,
            256,
        ) {
            Some(v) => v,
            None => {
                return Err(ConfigError::InvalidNumber(NumField::MaxFileSizeEncryptedMb));
            },
        };
        let max_file_size_unencrypted_mb = match resolve_usize(
            &cli.max_file_size_unencrypted_mb,
            &env.max_file_size_unencrypted_mb,
            2048,
        ) {
            Some(v) => v,
            None => {
                return Err(ConfigError::InvalidNumber(NumField::MaxFileSizeUnencryptedMb));
            },
        };
        let bind = match resolve_bind(&cli.bind, &env.bind, v6) {
            Ok(b) => b,
            Err(e) => {
                return Err(e);
            },
        };
        Ok(
            Args {
                auth_basic_username: resolve_opt_string(
                    &cli.auth_basic_username,
                    &env.auth_basic_username,
                ),
                auth_basic_password: resolve_opt_string(
                    &cli.auth_basic_password,
                    &env.auth_basic_password,
                ),
                auth_admin_username: resolve_string(
                    &cli.auth_admin_username,
                    &env.auth_admin_username,
                    "admin",
                ),
                auth_admin_password: resolve_string(
                    &cli.auth_admin_password,
                    &env.auth_admin_password,
                    "m1cr0b1n",
                ),
                editable: resolve_bool(cli.editable, &env.editable),
                footer_text: resolve_opt_string(&cli.footer_text, &env.footer_text),
                hide_footer: resolve_bool(cli.hide_footer, &env.hide_footer),
                hide_header: resolve_bool(cli.hide_header, &env.hide_header),
                hide_logo: resolve_bool(cli.hide_logo, &env.hide_logo),
                no_listing: resolve_bool(cli.no_listing, &env.no_listing),
                highlightsyntax: resolve_bool(cli.highlightsyntax, &env.highlightsyntax),
                port,
                bind,
                private: resolve_bool(cli.private, &env.private),
                pure_html: resolve_bool(cli.pure_html, &env.pure_html),
                json_db: resolve_bool(cli.json_db, &env.json_db),
                public_path: resolve_path(&cli.public_path, &env.public_path),
                short_path: resolve_path(&cli.short_path, &env.short_path),
                readonly: resolve_bool(cli.readonly, &env.readonly),
                show_read_stats: resolve_bool(cli.show_read_stats, &env.show_read_stats),
                title: resolve_opt_string(&cli.title, &env.title),
                threads,
                gc_days,
                enable_burn_after: resolve_bool(cli.enable_burn_after, &env.enable_burn_after),
                default_burn_after,
                wide: resolve_bool(cli.wide, &env.wide),
                qr: resolve_bool(cli.qr, &env.qr),
                eternal_pasta: resolve_bool(cli.eternal_pasta, &env.eternal_pasta),
                enable_readonly: resolve_bool(cli.enable_readonly, &env.enable_readonly),
                default_expiry: resolve_string(&cli.default_expiry, &env.default_expiry, "24hour"),
                no_file_upload: resolve_bool(cli.no_file_upload, &env.no_file_upload),
                custom_css: resolve_opt_string(&cli.custom_css, &env.custom_css),
                hash_ids: resolve_bool(cli.hash_ids, &env.hash_ids),
                encryption_client_side: resolve_bool(
                    cli.encryption_client_side,
                    &env.encryption_client_side,
                ),
                encryption_server_side: resolve_bool(
                    cli.encryption_server_side,
                    &env.encryption_server_side,
                ),
                max_file_size_encrypted_mb,
                max_file_size_unencrypted_mb,
            },
        )
    }
}

/// The text of the public path: its normalized form, or empty when unset.
pub open spec fn spec_public_path_str(a: Args) -> Seq<char> {
    match a.public_path {
        Some(u) => u.0@,
        None => Seq::<char>::empty(),
    }
}

/// The text of the short path: its own normalized form when set, else the
/// public path's, else empty — evaluated in exactly that order.
pub open spec fn spec_short_path_str(a: Args) -> Seq<char> {
    match a.short_path {
        Some(u) => u.0@,
        None => spec_public_path_str(a),
    }
}

impl Args {
    /// The normalized public path, or the empty string when unset.
    pub fn public_path_as_str(&self) -> (r: String)
        ensures
            r@ == spec_public_path_str(*self),
    {
        match &self.public_path {
            Some(u) => u.0.clone(),
            None => String::new(),
        }
    }

    /// The normalized short path when set, else the normalized public
    /// path, else the empty string.
    pub fn short_path_as_str(&self) -> (r: String)
        ensures
            r@ == spec_short_path_str(*self),
    {
        match &self.short_path {
            Some(u) => u.0.clone(),
            None => self.public_path_as_str(),
        }
    }
}

/// Command-line precedence: whenever both an explicit command-line value
/// and an environment value are supplied for a field, the command-line
/// value is the one that resolves — for text, numeric and toggle fields
/// alike.
pub proof fn lemma_cli_precedence(flag: Seq<char>, env: Seq<char>, default: Seq<char>, d: nat)
    ensures
        src_of(Some(flag), Some(env)) == Some(flag),
        resolved_string(Some(flag), Some(env), default) == flag,
        resolved_num(src_of(Some(flag), Some(env)), d) == uint_val(flag),
        resolved_bool(true, Some(env)),
{
}

/// Default fallback: with neither a flag nor an environment value, a
/// field resolves to its compiled-in default, and a toggle stays false.
pub proof fn lemma_default_fallback(default: Seq<char>, d: nat)
    ensures
        src_of(None, None) is None,
        resolved_string(None, None, default) == default,
        resolved_num(None, d) == d,
        !resolved_bool(false, None),
{
}

/// Toggle presence: supplying the flag alone resolves the toggle to true;
/// omitting both flag and environment value resolves it to false.
pub proof fn lemma_bool_presence(env: Option<Seq<char>>)
    ensures
        resolved_bool(true, env),
        !resolved_bool(false, None),
{
}

/// A malformed explicit numeric source is fatal: no resolution over such
/// a source succeeds, whatever the other inputs hold.
pub proof fn lemma_bad_numeric_fatal(cli: CliInput, env: EnvInput, v6: Option<BindAddr>)
    requires
        ({
            let s = src_of(cli.port.deep_view(), env.port.deep_view());
            s is Some && !(is_uint_str(s->0) && uint_val(s->0) <= u16::MAX as nat)
        }),
    ensures
        !resolution_ok(cli, env, v6),
{
}

impl CliInput {
    /// A command line on which nothing was supplied.
    pub fn empty() -> (c: CliInput)
        ensures
            c == (CliInput {
                auth_basic_username: None,
                auth_basic_password: None,
                auth_admin_username: None,
                auth_admin_password: None,
                editable: false,
                footer_text: None,
                hide_footer: false,
                hide_header: false,
                hide_logo: false,
                no_listing: false,
                highlightsyntax: false,
                port: None,
                bind: None,
                private: false,
                pure_html: false,
                json_db: false,
                public_path: None,
                short_path: None,
                readonly: false,
                show_read_stats: false,
                title: None,
                threads: None,
                gc_days: None,
                enable_burn_after: false,
                default_burn_after: None,
                wide: false,
                qr: false,
                eternal_pasta: false,
                enable_readonly: false,
                default_expiry: None,
                no_file_upload: false,
                custom_css: None,
                hash_ids: false,
                encryption_client_side: false,
                encryption_server_side: false,
                max_file_size_encrypted_mb: None,
                max_file_size_unencrypted_mb: None,
            }),
    {
        CliInput {
            auth_basic_username: None,
            auth_basic_password: None,
            auth_admin_username: None,
            auth_admin_password: None,
            editable: false,
            footer_text: None,
            hide_footer: false,
            hide_header: false,
            hide_logo: false,
            no_listing: false,
            highlightsyntax: false,
            port: None,
            bind: None,
            private: false,
            pure_html: false,
            json_db: false,
            public_path: None,
            short_path: None,
            readonly: false,
            show_read_stats: false,
            title: None,
            threads: None,
            gc_days: None,
            enable_burn_after: false,
            default_burn_after: None,
            wide: false,
            qr: false,
            eternal_pasta: false,
            enable_readonly: false,
            default_expiry: None,
            no_file_upload: false,
            custom_css: None,
            hash_ids: false,
            encryption_client_side: false,
            encryption_server_side: false,
            max_file_size_encrypted_mb: None,
            max_file_size_unencrypted_mb: None,
        }
    }
}

impl EnvInput {
    /// An environment in which no variable of the service is set.
    pub fn empty() -> (e: EnvInput)
        ensures
            e == (EnvInput {
                auth_basic_username: None,
                auth_basic_password: None,
                auth_admin_username: None,
                auth_admin_password: None,
                editable: None,
                footer_text: None,
                hide_footer: None,
                hide_header: None,
                hide_logo: None,
                no_listing: None,
                highlightsyntax: None,
                port: None,
                bind: None,
                private: None,
                pure_html: None,
                json_db: None,
                public_path: None,
                short_path: None,
                readonly: None,
                show_read_stats: None,
                title: None,
                threads: None,
                gc_days: None,
                enable_burn_after: None,
                default_burn_after: None,
                wide: None,
                qr: None,
                eternal_pasta: None,
                enable_readonly: None,
                default_expiry: None,
                no_file_upload: None,
                custom_css: None,
                hash_ids: None,
                encryption_client_side: None,
                encryption_server_side: None,
                max_file_size_encrypted_mb: None,
                max_file_size_unencrypted_mb: None,
            }),
    {
        EnvInput {
            auth_basic_username: None,
            auth_basic_password: None,
            auth_admin_username: None,
            auth_admin_password: None,
            editable: None,
            footer_text: None,
            hide_footer: None,
            hide_header: None,
            hide_logo: None,
            no_listing: None,
            highlightsyntax: None,
            port: None,
            bind: None,
            private: None,
            pure_html: None,
            json_db: None,
            public_path: None,
            short_path: None,
            readonly: None,
            show_read_stats: None,
            title: None,
            threads: None,
            gc_days: None,
            enable_burn_after: None,
            default_burn_after: None,
            wide: None,
            qr: None,
            eternal_pasta: None,
            enable_readonly: None,
            default_expiry: None,
            no_file_upload: None,
            custom_css: None,
            hash_ids: None,
            encryption_client_side: None,
            encryption_server_side: None,
            max_file_size_encrypted_mb: None,
            max_file_size_unencrypted_mb: None,
        }
    }
}

} // verus!
