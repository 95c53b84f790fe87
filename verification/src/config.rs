use vstd::prelude::*;

verus! {

/// The batch size of a scraper whose configuration names none.
pub const DEFAULT_BATCH_SIZE: usize = 100;

/// The whole configuration: where the server listens and what the scraper follows.
#[derive(Debug, Clone)]
pub struct Config {
    pub server: ServerConfig,
    pub scraper: ScraperConfig,
}

/// Where the reporting server listens.
#[derive(Debug, Clone)]
pub struct ServerConfig {
    /// Host address to listen on
    pub host: String,
    /// Port to listen on
    pub port: u16,
}

/// What the scraper follows, and with which credentials.
#[derive(Debug, Clone)]
pub struct ScraperConfig {
    pub consumer_key: String,
    pub consumer_secret: String,
    pub access_key: String,
    pub access_secret: String,
    pub topics: Vec<String>,
    pub batch_size: Option<usize>,
    /// The number of worker threads, where the default is not wanted.
    pub workers: Option<usize>,
}

/// The values of the environment variables that a configuration is made of, each `None`
/// where the variable is not set.
#[derive(Debug, Clone)]
pub struct Environment {
    pub port: Option<String>,
    pub host: Option<String>,
    pub consumer_key: Option<String>,
    pub consumer_secret: Option<String>,
    pub access_key: Option<String>,
    pub access_secret: Option<String>,
    pub topics: Option<String>,
    pub batch_size: Option<String>,
    pub workers: Option<String>,
}

/// The environment variables that a configuration cannot do without.
#[derive(Clone, Copy, Debug, PartialEq, Eq, Structural)]
pub enum Variable {
    Port,
    ConsumerKey,
    ConsumerSecret,
    AccessKey,
    AccessSecret,
    Topics,
}

/// Why the environment yields no configuration.
#[derive(Clone, Copy, Debug, PartialEq, Eq, Structural)]
pub enum ConfigError {
    /// The variable is not set.
    Missing(Variable),
    /// The variable is set, but its value is no number of the range wanted.
    Unparsable(Variable),
}

/// The strings as plain values.
pub open spec fn names_of(strings: Seq<String>) -> Seq<Seq<char>> {
    Seq::new(strings.len(), |i: int| strings[i]@)
}

/// Whether `c` is one of the ten decimal digits.
pub open spec fn is_digit(c: char) -> bool {
    '0' <= c <= '9'
}

/// Whether `digits` holds decimal digits only.
pub open spec fn all_digits(digits: Seq<char>) -> bool {
    forall|i: int| 0 <= i < digits.len() ==> is_digit(#[trigger] digits[i])
}

/// The number that `digits` write in base ten.
pub open spec fn digits_value(digits: Seq<char>) -> int
    decreases digits.len(),
{
    if digits.len() == 0 {
        0
    } else {
        10 * digits_value(digits.drop_last()) + (digits.last() as int - '0' as int)
    }
}

/// `text` without the plus sign that may stand before the digits of a number.
pub open spec fn unsigned_digits(text: Seq<char>) -> Seq<char> {
    if text.len() > 0 && text[0] == '+' {
        text.subrange(1, text.len() as int)
    } else {
        text
    }
}

/// The number that `text` writes, where it writes one that is no greater than `max`: at
/// least one decimal digit, with at most a plus sign before and nothing else around.
pub open spec fn parsed_unsigned(text: Seq<char>, max: int) -> Option<int> {
    let digits = unsigned_digits(text);
    if digits.len() > 0 && all_digits(digits) && digits_value(digits) <= max {
        Some(digits_value(digits))
    } else {
        None
    }
}

/// The fields of `text` from the one that starts at `start`, where the characters from
/// `start` up to `at` are known to hold no comma.
pub open spec fn split_fields(text: Seq<char>, start: int, at: int) -> Seq<Seq<char>>
    decreases text.len() - at,
{
    if at >= text.len() {
        seq![text.subrange(start, text.len() as int)]
    } else if text[at] == ',' {
        seq![text.subrange(start, at)] + split_fields(text, at + 1, at + 1)
    } else {
        split_fields(text, start, at + 1)
    }
}

/// The fields of `text` that its commas part. There is one field more than there are
/// commas, and a field may be empty.
pub open spec fn comma_separated(text: Seq<char>) -> Seq<Seq<char>> {
    split_fields(text, 0, 0)
}

/// `fields` written one after the other with a comma between each two.
pub open spec fn comma_joined(fields: Seq<Seq<char>>) -> Seq<char>
    decreases fields.len(),
{
    if fields.len() == 0 {
        Seq::empty()
    } else if fields.len() == 1 {
        fields[0]
    } else {
        fields[0] + seq![','] + comma_joined(fields.drop_first())
    }
}

/// The host that the server listens on where the environment names none.
pub open spec fn default_host() -> Seq<char> {
    "0.0.0.0"@
}

/// The first thing that keeps `env` from yielding a configuration, if anything does: the
/// port comes first, then the credentials, then the topics.
pub open spec fn problem_of(env: Environment) -> Option<ConfigError> {
    if env.port is None {
        Some(ConfigError::Missing(Variable::Port))
    } else if parsed_unsigned(env.port->0@, u16::MAX as int) is None {
        Some(ConfigError::Unparsable(Variable::Port))
    } else if env.consumer_key is None {
        Some(ConfigError::Missing(Variable::ConsumerKey))
    } else if env.consumer_secret is None {
        Some(ConfigError::Missing(Variable::ConsumerSecret))
    } else if env.access_key is None {
        Some(ConfigError::Missing(Variable::AccessKey))
    } else if env.access_secret is None {
        Some(ConfigError::Missing(Variable::AccessSecret))
    } else if env.topics is None {
        Some(ConfigError::Missing(Variable::Topics))
    } else {
        None
    }
}

/// The number that an optional variable holds: none where it is not set, and none where
/// its value writes no number up to `usize::MAX`.
pub open spec fn optional_number(value: Option<String>) -> Option<usize> {
    match value {
        None => None,
        Some(text) => match parsed_unsigned(text@, usize::MAX as int) {
            None => None,
            Some(number) => Some(number as usize),
        },
    }
}

/// Whether `config` is the configuration that `env` describes.
pub open spec fn describes(env: Environment, config: Config) -> bool {
    &&& Some(config.server.port as int) == parsed_unsigned(env.port->0@, u16::MAX as int)
    &&& config.server.host@ == match env.host {
        Some(host) => host@,
        None => default_host(),
    }
    &&& config.scraper.consumer_key@ == env.consumer_key->0@
    &&& config.scraper.consumer_secret@ == env.consumer_secret->0@
    &&& config.scraper.access_key@ == env.access_key->0@
    &&& config.scraper.access_secret@ == env.access_secret->0@
    &&& names_of(config.scraper.topics@) == comma_separated(env.topics->0@)
    &&& config.scraper.batch_size == optional_number(env.batch_size)
    &&& config.scraper.workers == optional_number(env.workers)
}

/// Appending a digit never makes the number smaller.
pub proof fn lemma_digits_value_grows(digits: Seq<char>, shorter: int)
    requires
        all_digits(digits),
        0 <= shorter <= digits.len(),
    ensures
        0 <= digits_value(digits.take(shorter)) <= digits_value(digits),
    decreases digits.len() - shorter,
{
    if shorter == 0 {
        assert(digits.take(0).len() == 0);
        lemma_digits_value_nonnegative(digits);
    } else if shorter < digits.len() {
        lemma_digits_value_grows(digits, shorter + 1);
        let longer = digits.take(shorter + 1);
        assert(longer.drop_last() == digits.take(shorter));
        assert(is_digit(digits[shorter]));
        lemma_digits_value_nonnegative(digits.take(shorter));
    } else {
        assert(digits.take(shorter) == digits);
        lemma_digits_value_nonnegative(digits);
    }
}

/// Digits write no negative number.
pub proof fn lemma_digits_value_nonnegative(digits: Seq<char>)
    requires
        all_digits(digits),
    ensures
        0 <= digits_value(digits),
    decreases digits.len(),
{
    if digits.len() > 0 {
        assert(is_digit(digits.last()));
        lemma_digits_value_nonnegative(digits.drop_last());
    }
}

/// Reads `text` as a number that is no greater than `max`.
///
/// The text holds decimal digits, at least one, with at most a plus sign before them;
/// anything else, blanks and a minus sign included, makes it unreadable.
pub fn parse_unsigned(text: &str, max: u64) -> (number: Option<u64>)
    ensures
        match number {
            Some(value) => parsed_unsigned(text@, max as int) == Some(value as int),
            None => parsed_unsigned(text@, max as int) is None,
        },
{
    let length = text.unicode_len();
    let first: usize = if length > 0 && text.get_char(0) == '+' {
        1
    } else {
        0
    };
    let ghost digits = unsigned_digits(text@);
    if first >= length {
        return None;
    }
    let mut value: u64 = 0;
    let mut at: usize = first;
    while at < length
        invariant
            first <= at <= length,
            length == text@.len(),
            digits == unsigned_digits(text@),
            digits == text@.subrange(first as int, length as int),
            all_digits(digits.take(at - first)),
            value == digits_value(digits.take(at - first)),
            value <= max,
        decreases length - at,
    {
        let c = text.get_char(at);
        let ghost longer = digits.take(at - first + 1);
        proof {
            assert(longer.drop_last() == digits.take(at - first));
            assert(longer.last() == c);
        }
        if !(c >= '0' && c <= '9') {
            assert(!is_digit(digits[at - first]));
            return None;
        }
        let digit: u64 = (c as u32 - '0' as u32) as u64;
        if digit > max || value > (max - digit) / 10 {
            proof {
                if all_digits(digits) {
                    lemma_digits_value_grows(digits, at - first + 1);
                }
            }
            return None;
        }
        value = value * 10 + digit;
        at += 1;
    }
    proof {
        assert(digits.take(at - first) == digits);
    }
    Some(value)
}

/// Parts `text` at its commas.
pub fn split_topics(text: &str) -> (topics: Vec<String>)
    ensures
        names_of(topics@) == comma_separated(text@),
{
    let length = text.unicode_len();
    let mut topics: Vec<String> = Vec::new();
    let mut start: usize = 0;
    let mut at: usize = 0;
    while at < length
        invariant
            start <= at <= length,
            length == text@.len(),
            names_of(topics@) + split_fields(text@, start as int, at as int) == comma_separated(
                text@,
            ),
        decreases length - at,
    {
        if text.get_char(at) == ',' {
            let ghost done = names_of(topics@);
            let field = text.substring_char(start, at).to_owned();
            topics.push(field);
            proof {
                assert(names_of(topics@) == done.push(text@.subrange(start as int, at as int)));
                assert(done + (seq![text@.subrange(start as int, at as int)] + split_fields(
                    text@,
                    at + 1,
                    at + 1,
                )) == names_of(topics@) + split_fields(text@, at + 1, at + 1));
            }
            start = at + 1;
        }
        at += 1;
    }
    let ghost done = names_of(topics@);
    let field = text.substring_char(start, length).to_owned();
    topics.push(field);
    proof {
        assert(names_of(topics@) == done.push(text@.subrange(start as int, length as int)));
        assert(done + seq![text@.subrange(start as int, length as int)] == names_of(topics@));
    }
    topics
}

/// Reads an optional number: none where the variable is not set or holds no number.
pub fn read_optional_number(value: &Option<String>) -> (number: Option<usize>)
    ensures
        number == optional_number(*value),
{
    match value {
        None => None,
        Some(text) => match parse_unsigned(text.as_str(), usize::MAX as u64) {
            None => None,
            Some(number) => Some(number as usize),
        },
    }
}

/// Makes the configuration that the environment variables describe.
///
/// The port must be set and be a number up to 65535. The four credentials and the topics
/// must be set; the topics are parted at their commas. The host is `0.0.0.0` where it is
/// not set. The batch size and the number of workers are taken where they are set and hold
/// a number, and left out otherwise.
pub fn from_env(env: Environment) -> (loaded: Result<Config, ConfigError>)
    ensures
        match loaded {
            Ok(config) => problem_of(env) is None && describes(env, config),
            Err(error) => problem_of(env) == Some(error),
        },
{
    let batch_size = read_optional_number(&env.batch_size);
    let workers = read_optional_number(&env.workers);
    let port: u16 = match &env.port {
        None => {
            return Err(ConfigError::Missing(Variable::Port));
        },
        Some(text) => match parse_unsigned(text.as_str(), 65535) {
            None => {
                return Err(ConfigError::Unparsable(Variable::Port));
            },
            Some(number) => number as u16,
        },
    };
    let host = match env.host {
        Some(host) => host,
        None => "0.0.0.0".to_owned(),
    };
    let consumer_key = match env.consumer_key {
        Some(key) => key,
        None => {
            return Err(ConfigError::Missing(Variable::ConsumerKey));
        },
    };
    let consumer_secret = match env.consumer_secret {
        Some(secret) => secret,
        None => {
            return Err(ConfigError::Missing(Variable::ConsumerSecret));
        },
    };
    let access_key = match env.access_key {
        Some(key) => key,
        None => {
            return Err(ConfigError::Missing(Variable::AccessKey));
        },
    };
    let access_secret = match env.access_secret {
        Some(secret) => secret,
        None => {
            return Err(ConfigError::Missing(Variable::AccessSecret));
        },
    };
    let topics = match &env.topics {
        Some(text) => split_topics(text.as_str()),
        None => {
            return Err(ConfigError::Missing(Variable::Topics));
        },
    };
    Ok(
        Config {
            server: ServerConfig { host, port },
            scraper: ScraperConfig {
                consumer_key,
                consumer_secret,
                access_key,
                access_secret,
                topics,
                batch_size,
                workers,
            },
        },
    )
}

impl Variable {
    /// The name of the variable in the environment.
    pub open spec fn name_view(&self) -> Seq<char> {
        match self {
            Variable::Port => "PORT"@,
            Variable::ConsumerKey => "CONSUMER_KEY"@,
            Variable::ConsumerSecret => "CONSUMER_SECRET"@,
            Variable::AccessKey => "ACCESS_KEY"@,
            Variable::AccessSecret => "ACCESS_SECRET"@,
            Variable::Topics => "TOPICS"@,
        }
    }

    /// The name of the variable in the environment.
    pub fn name(&self) -> (name: &'static str)
        ensures
            name@ == self.name_view(),
    {
        match self {
            Variable::Port => "PORT",
            Variable::ConsumerKey => "CONSUMER_KEY",
            Variable::ConsumerSecret => "CONSUMER_SECRET",
            Variable::AccessKey => "ACCESS_KEY",
            Variable::AccessSecret => "ACCESS_SECRET",
            Variable::Topics => "TOPICS",
        }
    }
}

impl ConfigError {
    /// The error in words.
    pub open spec fn message_view(&self) -> Seq<char> {
        match self {
            ConfigError::Missing(variable) => "No "@ + variable.name_view()
                + " in environment variables"@,
            ConfigError::Unparsable(variable) => "Could not parse "@ + variable.name_view()
                + " as u16"@,
        }
    }

    /// The error in words.
    pub fn message(&self) -> (message: String)
        ensures
            message@ == self.message_view(),
    {
        match self {
            ConfigError::Missing(variable) => {
                let mut message = "No ".to_owned();
                message.append(variable.name());
                message.append(" in environment variables");
                message
            },
            ConfigError::Unparsable(variable) => {
                let mut message = "Could not parse ".to_owned();
                message.append(variable.name());
                message.append(" as u16");
                message
            },
        }
    }
}

/// The fields that `split_fields` finds hold no comma, and written one after the other
/// with commas between they give the text from `start` on.
pub proof fn lemma_split_fields(text: Seq<char>, start: int, at: int)
    requires
        0 <= start <= at <= text.len(),
        forall|i: int| start <= i < at ==> text[i] != ',',
    ensures
        split_fields(text, start, at).len() >= 1,
        forall|k: int|
            0 <= k < split_fields(text, start, at).len() ==> !(#[trigger] split_fields(
                text,
                start,
                at,
            )[k]).contains(','),
        comma_joined(split_fields(text, start, at)) == text.subrange(start, text.len() as int),
    decreases text.len() - at,
{
    let fields = split_fields(text, start, at);
    if at >= text.len() {
        assert(fields[0] == text.subrange(start, text.len() as int));
    } else if text[at] == ',' {
        let head = text.subrange(start, at);
        let rest = split_fields(text, at + 1, at + 1);
        lemma_split_fields(text, at + 1, at + 1);
        assert(fields == seq![head] + rest);
        assert(fields.drop_first() == rest);
        assert(fields[0] == head);
        assert(head + seq![','] + text.subrange(at + 1, text.len() as int) == text.subrange(
            start,
            text.len() as int,
        ));
        assert forall|k: int| 0 <= k < fields.len() implies !(#[trigger] fields[k]).contains(
            ',',
        ) by {
            if k > 0 {
                assert(fields[k] == rest[k - 1]);
            }
        }
    } else {
        lemma_split_fields(text, start, at + 1);
    }
}

/// Parting a text at its commas loses nothing: no field holds a comma, and the fields
/// written one after the other with commas between give the text back.
pub proof fn law_fields_rejoin(text: Seq<char>)
    ensures
        comma_separated(text).len() >= 1,
        forall|k: int|
            0 <= k < comma_separated(text).len() ==> !(#[trigger] comma_separated(
                text,
            )[k]).contains(','),
        comma_joined(comma_separated(text)) == text,
{
    lemma_split_fields(text, 0, 0);
    assert(text.subrange(0, text.len() as int) == text);
}

} // verus!
