//! What the service is started with.
use vstd::prelude::*;

verus! {

/// What the service is started with.
pub struct Settings {
    /// The address of the database.
    pub database: String,
    /// The key that callers must have.
    pub api_key: String,
    /// The address to listen on.
    pub bind: String,
}

/// The text that was set, or the default where none was.
pub open spec fn set_or(set: Option<String>, default: Seq<char>) -> Seq<char> {
    match set {
        Some(text) => text@,
        None => default,
    }
}

fn or_default(set: Option<String>, default: &str) -> (text: String)
    ensures
        text@ == set_or(set, default@),
{
    match set {
        Some(text) => text,
        None => default.to_owned(),
    }
}

/// Settles the settings from the variables `DATABASE_URL`, `API_KEY` and `BIND`,
/// as far as they are set. The database is always opened with SQLite.
pub fn settle(
    database_url: Option<String>,
    api_key: Option<String>,
    bind: Option<String>,
) -> (settings: Settings)
    ensures
        settings.database@ == "sqlite:"@ + set_or(database_url, "sqlite:calls.db"@),
        settings.api_key@ == set_or(api_key, "dev-key"@),
        settings.bind@ == set_or(bind, "0.0.0.0:3000"@),
{
    let url = or_default(database_url, "sqlite:calls.db");
    Settings {
        database: "sqlite:".to_owned().concat(url.as_str()),
        api_key: or_default(api_key, "dev-key"),
        bind: or_default(bind, "0.0.0.0:3000"),
    }
}

/// What is set is taken as it is, each setting from its own variable, and the
/// database behind `sqlite:`; what is not set has its default.
pub proof fn law_settings_are_taken_as_set(
    database_url: Option<String>,
    api_key: Option<String>,
    bind: Option<String>,
    settings: Settings,
)
    requires
        call_ensures(settle, (database_url, api_key, bind), settings),
    ensures
        settings.database@.len() >= 7,
        settings.database@.take(7) == seq!['s', 'q', 'l', 'i', 't', 'e', ':'],
        match database_url {
            Some(url) => settings.database@.skip(7) == url@,
            None => settings.database@.skip(7) == "sqlite:calls.db"@,
        },
        match api_key {
            Some(key) => settings.api_key@ == key@,
            None => settings.api_key@ == "dev-key"@,
        },
        match bind {
            Some(address) => settings.bind@ == address@,
            None => settings.bind@ == "0.0.0.0:3000"@,
        },
{
    reveal_strlit("sqlite:");
    let url = match database_url {
        Some(url) => url@,
        None => "sqlite:calls.db"@,
    };
    assert(settings.database@.skip(7) =~= url);
}

} // verus!
