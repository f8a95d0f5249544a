use vstd::prelude::*;

use crate::conf::{
    bool_or, config_result_view, load_spec, u64_or, ConfigError, ConfigErrorView, GStorageConfig,
    GStorageConfigView,
    DCB_METADATA_TAGS, DCB_URL, DEFAULT_INTERVAL, GCLOUD_BUCKET_NAME, GCLOUD_FOLDER,
    GCLOUD_OAUTH_TOKEN, GCLOUD_REMOVE_ON_UPLOAD, GCLOUD_UPLOAD_INTERVAL,
};
use crate::parse::{decimal_value, is_decimal_digit, unsigned_digits};

verus! {

/// Text that reads as an unsigned decimal number: an optional `+`, then one
/// or more decimal digits.
pub open spec fn is_unsigned_number(s: Seq<char>) -> bool {
    let d = unsigned_digits(s);
    d.len() > 0 && forall|i: int| 0 <= i < d.len() ==> is_decimal_digit(#[trigger] d[i])
}

/// The optional settings that are unset stay absent: no value is made up
/// for the token or the backend endpoint.
pub proof fn lemma_unset_optional_keys_absent(env: Map<Seq<char>, Seq<char>>)
    ensures
        load_spec(env) is Ok && !env.contains_key(GCLOUD_OAUTH_TOKEN@) ==> load_spec(
            env,
        )->Ok_0.oauth_token is None,
        load_spec(env) is Ok && !env.contains_key(DCB_URL@) ==> load_spec(env)->Ok_0.dcb_url is None,
{
}

/// Unset variables never cause an error, and each unset variable leaves its
/// default: bucket `tick_data`, the bucket's root as folder, an hour as
/// interval, removal after upload, and a tag list of one empty tag.
pub proof fn lemma_unset_keys_take_defaults(env: Map<Seq<char>, Seq<char>>)
    ensures
        !env.contains_key(GCLOUD_UPLOAD_INTERVAL@) && !env.contains_key(GCLOUD_REMOVE_ON_UPLOAD@)
            ==> load_spec(env) is Ok,
        load_spec(env) is Ok ==> {
            let c = load_spec(env)->Ok_0;
            &&& !env.contains_key(GCLOUD_BUCKET_NAME@) ==> c.bucket_name == "tick_data"@
            &&& !env.contains_key(GCLOUD_FOLDER@) ==> c.folder == Seq::<char>::empty()
            &&& !env.contains_key(GCLOUD_UPLOAD_INTERVAL@) ==> c.interval == 3600
            &&& !env.contains_key(GCLOUD_REMOVE_ON_UPLOAD@) ==> c.remove
            &&& !env.contains_key(DCB_METADATA_TAGS@) ==> c.dcb_metadata_tags == seq![
                Seq::<char>::empty(),
            ]
        },
{
    reveal_strlit("");
}

/// A decimal number that fits in 64 bits, given as the interval, becomes the
/// interval, and the interval is then never the cause of a failure.
pub proof fn lemma_interval_number(env: Map<Seq<char>, Seq<char>>, digits: Seq<char>)
    requires
        env.contains_key(GCLOUD_UPLOAD_INTERVAL@),
        env[GCLOUD_UPLOAD_INTERVAL@] == digits,
        digits.len() > 0,
        forall|i: int| 0 <= i < digits.len() ==> is_decimal_digit(#[trigger] digits[i]),
        decimal_value(digits) <= u64::MAX,
    ensures
        u64_or(env, GCLOUD_UPLOAD_INTERVAL@, DEFAULT_INTERVAL) == Ok::<u64, ConfigErrorView>(
            decimal_value(digits) as u64,
        ),
        load_spec(env) is Ok ==> load_spec(env)->Ok_0.interval == decimal_value(digits),
        bool_or(env, GCLOUD_REMOVE_ON_UPLOAD@, true) is Ok ==> load_spec(env) is Ok,
{
    assert(is_decimal_digit(digits[0]));
    assert(unsigned_digits(digits) == digits);
}

/// An interval that does not read as a number makes loading fail, with an
/// error that names the interval's variable and its value.
pub proof fn lemma_interval_not_number(env: Map<Seq<char>, Seq<char>>, value: Seq<char>)
    requires
        env.contains_key(GCLOUD_UPLOAD_INTERVAL@),
        env[GCLOUD_UPLOAD_INTERVAL@] == value,
        !is_unsigned_number(value),
    ensures
        load_spec(env) == Err::<GStorageConfigView, ConfigErrorView>(
            ConfigErrorView::ParseError { key: GCLOUD_UPLOAD_INTERVAL@, value },
        ),
{
}

/// The removal flag follows `true` and `false`; any other value makes
/// loading fail, naming the flag's variable unless the interval failed first.
pub proof fn lemma_remove_flag(env: Map<Seq<char>, Seq<char>>)
    requires
        env.contains_key(GCLOUD_REMOVE_ON_UPLOAD@),
    ensures
        env[GCLOUD_REMOVE_ON_UPLOAD@] == "true"@ && load_spec(env) is Ok ==> load_spec(
            env,
        )->Ok_0.remove,
        env[GCLOUD_REMOVE_ON_UPLOAD@] == "false"@ && load_spec(env) is Ok ==> !load_spec(
            env,
        )->Ok_0.remove,
        env[GCLOUD_REMOVE_ON_UPLOAD@] != "true"@ && env[GCLOUD_REMOVE_ON_UPLOAD@] != "false"@
            ==> load_spec(env) is Err,
        env[GCLOUD_REMOVE_ON_UPLOAD@] != "true"@ && env[GCLOUD_REMOVE_ON_UPLOAD@] != "false"@
            && u64_or(env, GCLOUD_UPLOAD_INTERVAL@, DEFAULT_INTERVAL) is Ok ==> load_spec(env)
            == Err::<GStorageConfigView, ConfigErrorView>(
            ConfigErrorView::ParseError {
                key: GCLOUD_REMOVE_ON_UPLOAD@,
                value: env[GCLOUD_REMOVE_ON_UPLOAD@],
            },
        ),
{
    reveal_strlit("true");
    reveal_strlit("false");
    assert("true"@.len() != "false"@.len());
}

/// Loading twice from the same variables gives configurations of equal
/// content, or equal errors.
pub proof fn lemma_load_idempotent(
    env: Map<Seq<char>, Seq<char>>,
    first: Result<GStorageConfig, ConfigError>,
    second: Result<GStorageConfig, ConfigError>,
)
    requires
        config_result_view(first) == load_spec(env),
        config_result_view(second) == load_spec(env),
    ensures
        config_result_view(first) == config_result_view(second),
{
}

} // verus!
