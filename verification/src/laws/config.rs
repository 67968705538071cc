//! What holds of every configuration that is accepted.
use vstd::prelude::*;

use crate::config::{blank, secret, AppConfig, CliArgs, SecretFile};
use crate::error::Fault;
use crate::text::{
    decimal, drop_back, drop_ends, lemma_drop_back, lemma_drop_ends, replaced, trimmed, white_space,
};

verus! {

broadcast use vstd::string::group_string_axioms;

/// An accepted configuration can be worked with: there is an account and a broker, the
/// lengths of time are not zero, the first delay is not longer than the longest, the topic
/// prefixes neither are empty nor start or end with a slash, and a password for the broker
/// comes with a user.
pub proof fn law_config_sound(args: CliArgs, config: AppConfig)
    requires
        args.fault() is None,
        args.described_by(config),
    ensures
        config.qcore.login@.len() > 0,
        config.mqtt.host@.len() > 0,
        config.qcore.api_url@.len() > 0 ==> config.qcore.api_url@.last() != '/',
        config.qcore.http_timeout@ > 0,
        config.polling.interval@ > 0,
        0 < config.reconnect.initial_delay@ <= config.reconnect.max_delay@,
        config.stats.interval@ > 0,
        config.mqtt.discovery_prefix@.len() > 0,
        config.mqtt.discovery_prefix@[0] != '/',
        config.mqtt.discovery_prefix@.last() != '/',
        config.mqtt.topic_prefix@.len() > 0,
        config.mqtt.topic_prefix@[0] != '/',
        config.mqtt.topic_prefix@.last() != '/',
        config.mqtt.password is Some ==> config.mqtt.username is Some,
{
    let slash = set!['/'];
    lemma_drop_back(trimmed(args.qc_api_url@), slash);
    lemma_drop_ends(trimmed(args.discovery_prefix@), slash);
    lemma_drop_ends(trimmed(args.topic_prefix@), slash);
}

/// Whether a text has nothing in it but white space.
pub open spec fn empty_handed(text: Seq<char>) -> bool {
    forall|i: int| 0 <= i < text.len() ==> white_space(#[trigger] text[i])
}

proof fn lemma_blank(text: Seq<char>)
    ensures
        blank(text) <==> empty_handed(text),
{
    let (from, to) = lemma_drop_ends(text, crate::text::white_spaces());
    if blank(text) {
        assert forall|i: int| 0 <= i < text.len() implies white_space(#[trigger] text[i]) by {
            assert(crate::text::white_spaces().contains(text[i]));
        }
    }
    if empty_handed(text) && from < to {
        assert(white_space(text[from]));
        assert(crate::text::white_spaces().contains(text[from]));
    }
}

/// What is wrong with the settings of a command line, of which the first thing is told: an
/// account, an address or a broker without a name, and a length of time that is zero, or that
/// is longer than the longest.
pub proof fn law_settings_refused(args: CliArgs)
    ensures
        ({
            let no_login = empty_handed(args.qc_login@);
            let no_url = empty_handed(args.qc_api_url@);
            let no_host = empty_handed(args.mqtt_host@);
            let words = if no_login {
                Some("qc_login cannot be empty"@)
            } else if no_url {
                Some("qc_api_url cannot be empty"@)
            } else if no_host {
                Some("mqtt_host cannot be empty"@)
            } else if args.http_timeout_millis == 0 {
                Some("http_timeout_millis must be greater than zero"@)
            } else if args.interval_seconds == 0 {
                Some("interval_seconds must be greater than zero"@)
            } else if args.reconnect_initial_delay_millis == 0 {
                Some("reconnect_initial_delay_millis must be greater than zero"@)
            } else if args.reconnect_max_delay_millis == 0 {
                Some("reconnect_max_delay_millis must be greater than zero"@)
            } else if args.reconnect_initial_delay_millis > args.reconnect_max_delay_millis {
                Some(
                    "reconnect initial delay "@ + decimal(
                        args.reconnect_initial_delay_millis as nat,
                    ) + " cannot be greater than reconnect max delay "@ + decimal(
                        args.reconnect_max_delay_millis as nat,
                    ),
                )
            } else if args.stats_interval_millis == 0 {
                Some("stats_interval_millis must be greater than zero"@)
            } else {
                None
            };
            &&& words is Some ==> args.fault() == Some(Fault::InvalidConfig(words->0))
            &&& words is None ==> args.setting_fault() is None
        }),
{
    lemma_blank(args.qc_login@);
    lemma_blank(args.qc_api_url@);
    lemma_blank(args.mqtt_host@);
}

/// A secret is what is given inline, as it is, or what stands in its file, without white space
/// at its ends. Both at once, a file without anything in it and a file that cannot be read are
/// refused.
pub proof fn law_secrets(
    field_name: Seq<char>,
    value: String,
    file: SecretFile,
    content: String,
    words: String,
)
    ensures
        secret(field_name, None, None) == Ok::<Option<Seq<char>>, Fault>(None),
        secret(field_name, Some(value), None) == Ok::<Option<Seq<char>>, Fault>(Some(value@)),
        file.content == Ok::<String, String>(content) && !empty_handed(content@) ==> secret(
            field_name,
            None,
            Some(file),
        ) == Ok::<Option<Seq<char>>, Fault>(Some(trimmed(content@))),
        file.content == Ok::<String, String>(content) && empty_handed(content@) ==> secret(
            field_name,
            None,
            Some(file),
        ) == Err::<Option<Seq<char>>, Fault>(
            Fault::InvalidConfig(field_name + " file "@ + file.path@ + " was empty"@),
        ),
        file.content == Err::<String, String>(words) ==> secret(field_name, None, Some(file))
            == Err::<Option<Seq<char>>, Fault>(Fault::Io(words@)),
        ({
            let option = replaced(field_name, '_', '-');
            secret(field_name, Some(value), Some(file)) == Err::<Option<Seq<char>>, Fault>(
                Fault::InvalidConfig(
                    "use either --"@ + option + "/--"@ + option + "-file but not both"@,
                ),
            )
        }),
{
    lemma_blank(content@);
}

/// What is wrong with the secrets and the topics, once the settings are fine: there must be a
/// password for the account, one for the broker needs a user, and no prefix may be empty.
pub proof fn law_rest_refused(args: CliArgs)
    requires
        args.setting_fault() is None,
    ensures
        ({
            let account = secret("qc_password"@, args.qc_password, args.qc_password_file);
            let broker = secret("mqtt_password"@, args.mqtt_password, args.mqtt_password_file);
            let discovery = drop_ends(trimmed(args.discovery_prefix@), set!['/']);
            let topic = drop_ends(trimmed(args.topic_prefix@), set!['/']);
            let fault = if account is Err {
                Some(account->Err_0)
            } else if account->Ok_0 is None {
                Some(
                    Fault::InvalidConfig(
                        "either --qc-password or --qc-password-file must be provided"@,
                    ),
                )
            } else if broker is Err {
                Some(broker->Err_0)
            } else if broker->Ok_0 is Some && args.mqtt_user is None {
                Some(Fault::InvalidConfig("mqtt password requires --mqtt-user"@))
            } else if discovery.len() == 0 {
                Some(Fault::InvalidConfig("discovery prefix cannot be empty"@))
            } else if topic.len() == 0 {
                Some(Fault::InvalidConfig("topic prefix cannot be empty"@))
            } else {
                None
            };
            args.fault() == fault
        }),
{
    reveal_strlit("discovery prefix");
    reveal_strlit("topic prefix");
    reveal_strlit(" cannot be empty");
    reveal_strlit("discovery prefix cannot be empty");
    reveal_strlit("topic prefix cannot be empty");
    assert("discovery prefix"@ + " cannot be empty"@ =~= "discovery prefix cannot be empty"@);
    assert("topic prefix"@ + " cannot be empty"@ =~= "topic prefix cannot be empty"@);
}

/// A configuration says what the command line says, setting by setting: texts without white
/// space at their ends, the address without slashes at its end, the prefixes without slashes
/// at either end, the secrets, and lengths of time in nanoseconds.
pub proof fn law_config_says(args: CliArgs, config: AppConfig)
    requires
        args.described_by(config),
    ensures
        config.qcore.login@ == trimmed(args.qc_login@),
        config.qcore.api_url@ == drop_back(trimmed(args.qc_api_url@), set!['/']),
        secret("qc_password"@, args.qc_password, args.qc_password_file) == Ok::<
            Option<Seq<char>>,
            Fault,
        >(Some(config.qcore.password@)),
        config.qcore.cache_dir == args.cache_dir,
        config.qcore.http_timeout@ == args.http_timeout_millis * 1_000_000,
        config.mqtt.host@ == trimmed(args.mqtt_host@),
        config.mqtt.port == args.mqtt_port,
        config.mqtt.username is Some <==> args.mqtt_user is Some,
        config.mqtt.username is Some ==> config.mqtt.username->0@ == trimmed(args.mqtt_user->0@),
        config.mqtt.password is Some ==> secret(
            "mqtt_password"@,
            args.mqtt_password,
            args.mqtt_password_file,
        ) == Ok::<Option<Seq<char>>, Fault>(Some(config.mqtt.password->0@)),
        config.mqtt.password is None ==> secret(
            "mqtt_password"@,
            args.mqtt_password,
            args.mqtt_password_file,
        ) == Ok::<Option<Seq<char>>, Fault>(None),
        config.mqtt.discovery_prefix@ == drop_ends(trimmed(args.discovery_prefix@), set!['/']),
        config.mqtt.topic_prefix@ == drop_ends(trimmed(args.topic_prefix@), set!['/']),
        config.mqtt.client_id@ == trimmed(args.client_id@),
        config.polling.interval@ == args.interval_seconds * 1_000_000_000,
        config.reconnect.initial_delay@ == args.reconnect_initial_delay_millis * 1_000_000,
        config.reconnect.max_delay@ == args.reconnect_max_delay_millis * 1_000_000,
        config.stats.interval@ == args.stats_interval_millis * 1_000_000,
{
}

/// What a command line says where it says nothing.
pub proof fn law_defaults()
    ensures
        crate::config::DEFAULT_MQTT_PORT == 1883,
        crate::config::DEFAULT_INTERVAL_SECONDS == 60,
        crate::config::DEFAULT_HTTP_TIMEOUT_MILLIS == 15_000,
        crate::config::DEFAULT_RECONNECT_INITIAL_DELAY_MILLIS == 2_000,
        crate::config::DEFAULT_RECONNECT_MAX_DELAY_MILLIS == 60_000,
        crate::config::DEFAULT_STATS_INTERVAL_MILLIS == 300_000,
        crate::config::DEFAULT_DISCOVERY_PREFIX@ == "homeassistant"@,
        crate::config::DEFAULT_TOPIC_PREFIX@ == "qendercore"@,
        crate::config::DEFAULT_CLIENT_ID@ == "qendercore-rs-mqtt-adapter"@,
        crate::config::DEFAULT_CACHE_DIR@ == ".cache"@,
        crate::config::DEFAULT_API_URL@ == "https://auth.qendercore.com:8000/v1"@,
{
}

}
