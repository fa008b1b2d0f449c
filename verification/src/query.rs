//! Query identifiers, settings, and parameters.
//!
//! [`QueryOpts`] holds borrowed strings. Sending a query creates
//! null-terminated copies. Strings containing null bytes return
//! [`ErrorKind::Usage`](crate::ErrorKind::Usage).

use vstd::prelude::*;
use vstd::string::*;
use vstd::utf8::*;

use crate::error;
use crate::error::Error;
use crate::sys;
use crate::text;

verus! {

/// Null-terminated form of `s`, where no null byte stands inside it.
pub open spec fn c_string_of(label: Seq<char>, s: Seq<char>) -> Result<Seq<u8>, error::ErrorView> {
    let bytes = encode_utf8(s);
    let at = text::first_nul(bytes);
    if at < bytes.len() {
        Err(error::usage_error(label + " has an interior NUL at byte "@ + text::decimal(at)))
    } else {
        Ok(bytes.push(0))
    }
}

/// Outcome that gives bytes, taken by its view.
pub open spec fn bytes_outcome(result: Result<Vec<u8>, Error>) -> Result<
    Seq<u8>,
    error::ErrorView,
> {
    match result {
        Ok(bytes) => Ok(bytes@),
        Err(e) => Err(e@),
    }
}

/// Converts `s` to a null-terminated string and rejects interior null bytes.
pub fn cstring(label: &str, s: &str) -> (result: Result<Vec<u8>, Error>)
    ensures
        bytes_outcome(result) == c_string_of(label@, s@),
{
    let bytes = s.as_bytes();
    let at: usize = text::find_nul(bytes);
    if at < bytes.len() {
        let mut message = label.to_owned();
        message.append(" has an interior NUL at byte ");
        message.append(text::decimal_text(at as u64).as_str());
        Err(Error::usage(message))
    } else {
        Ok(text::terminated(bytes))
    }
}

/// What a reader that stops at the first null byte finds in a null-terminated
/// string is the whole string.
pub proof fn law_c_string_reads_back(label: Seq<char>, s: Seq<char>)
    ensures
        c_string_of(label, s) matches Ok(bytes) ==> {
            &&& bytes.take(text::first_nul(bytes) as int) == encode_utf8(s)
            &&& bytes.last() == 0
        },
{
    let plain = encode_utf8(s);
    let bytes = plain.push(0);
    text::lemma_first_nul(plain);
    if text::first_nul(plain) >= plain.len() {
        assert forall|i: int| 0 <= i < plain.len() implies #[trigger] bytes[i] != 0 by {
            assert(plain[i] != 0);
        }
        text::lemma_first_nul_is(bytes, plain.len());
        assert(bytes.take(plain.len() as int) =~= plain);
    }
}

/// A string is refused exactly where it holds a null byte.
pub proof fn law_c_string_refuses_nul(label: Seq<char>, s: Seq<char>)
    ensures
        c_string_of(label, s) is Err <==> encode_utf8(s).contains(0),
{
    let bytes = encode_utf8(s);
    text::lemma_first_nul(bytes);
    if bytes.contains(0) {
        let i = choose|i: int| 0 <= i < bytes.len() && bytes[i] == 0;
        assert(bytes[i] == 0);
    }
}

/// Query setting sent to ClickHouse.
#[derive(Clone, Copy, Debug, PartialEq, Eq)]
pub struct QuerySetting<'a> {
    pub name: &'a str,
    pub value: &'a str,
    /// Requests an error when server does not recognize setting.
    pub important: bool,
    /// Identifies setting as a user-defined `custom_*` setting.
    pub custom: bool,
}

impl<'a> QuerySetting<'a> {
    /// Creates a built-in setting that server may ignore when unknown.
    pub fn new(name: &'a str, value: &'a str) -> (setting: Self)
        ensures
            setting == (QuerySetting { name, value, important: false, custom: false }),
    {
        QuerySetting { name, value, important: false, custom: false }
    }

    /// Marks setting as important.
    pub fn important(self) -> (setting: Self)
        ensures
            setting == (QuerySetting { important: true, ..self }),
    {
        QuerySetting {
            name: self.name,
            value: self.value,
            important: true,
            custom: self.custom,
        }
    }

    /// Marks setting as user-defined.
    pub fn custom(self) -> (setting: Self)
        ensures
            setting == (QuerySetting { custom: true, ..self }),
    {
        QuerySetting {
            name: self.name,
            value: self.value,
            important: self.important,
            custom: true,
        }
    }

    /// `output_format_native_encode_types_in_binary_format = 0`.
    ///
    /// Block decoder requires text type names. Include this setting when a
    /// server or profile may enable binary type names.
    pub fn text_type_names() -> (setting: QuerySetting<'static>)
        ensures
            setting.name@ == "output_format_native_encode_types_in_binary_format"@,
            setting.value@ == "0"@,
            !setting.important,
            !setting.custom,
    {
        QuerySetting::new("output_format_native_encode_types_in_binary_format", "0")
    }
}

/// Value for a `{name:Type}` query parameter.
///
/// `value` must be a single-quoted literal for every declared type. For
/// example, `{n:UInt8}` requires `'42'`. Escape quotes and backslashes using
/// ClickHouse syntax. Represent null as `'\\N'`.
#[derive(Clone, Copy, Debug, PartialEq, Eq)]
pub struct QueryParam<'a> {
    pub name: &'a str,
    pub value: &'a str,
}

impl<'a> QueryParam<'a> {
    /// Creates a parameter. `value` must be single-quoted as described in
    /// [`QueryParam`] documentation.
    pub fn new(name: &'a str, value: &'a str) -> (param: Self)
        ensures
            param == (QueryParam { name, value }),
    {
        QueryParam { name, value }
    }
}

/// Additional values sent with a query.
#[derive(Clone, Copy, Debug)]
pub struct QueryOpts<'a> {
    /// Query identifier. `None` lets server assign an identifier.
    pub query_id: Option<&'a str>,
    pub settings: &'a [QuerySetting<'a>],
    pub params: &'a [QueryParam<'a>],
}

impl<'a> Default for QueryOpts<'a> {
    fn default() -> (opts: Self)
        ensures
            opts.query_id is None,
            opts.settings@.len() == 0,
            opts.params@.len() == 0,
    {
        QueryOpts::new()
    }
}

impl<'a> QueryOpts<'a> {
    /// Creates options without query identifier, settings, or parameters.
    pub fn new() -> (opts: Self)
        ensures
            opts.query_id is None,
            opts.settings@.len() == 0,
            opts.params@.len() == 0,
    {
        QueryOpts { query_id: None, settings: &[], params: &[] }
    }

    /// Sets query identifier.
    pub fn query_id(self, id: &'a str) -> (opts: Self)
        ensures
            opts == (QueryOpts { query_id: Some(id), ..self }),
    {
        QueryOpts { query_id: Some(id), settings: self.settings, params: self.params }
    }

    /// Sets query settings.
    pub fn settings(self, settings: &'a [QuerySetting<'a>]) -> (opts: Self)
        ensures
            opts == (QueryOpts { settings, ..self }),
    {
        QueryOpts { query_id: self.query_id, settings, params: self.params }
    }

    /// Sets query parameters.
    pub fn params(self, params: &'a [QueryParam<'a>]) -> (opts: Self)
        ensures
            opts == (QueryOpts { params, ..self }),
    {
        QueryOpts { query_id: self.query_id, settings: self.settings, params }
    }
}

/// What a setting record holds.
#[verifier::ext_equal]
pub struct SettingView {
    pub name: Seq<u8>,
    pub value: Seq<u8>,
    pub important: bool,
    pub custom: bool,
}

impl View for sys::chc_query_setting {
    type V = SettingView;

    open spec fn view(&self) -> SettingView {
        SettingView {
            name: self.name@,
            value: self.value@,
            important: self.important,
            custom: self.custom,
        }
    }
}

/// What a parameter record holds.
#[verifier::ext_equal]
pub struct ParamView {
    pub name: Seq<u8>,
    pub value: Seq<u8>,
}

impl View for sys::chc_query_param {
    type V = ParamView;

    open spec fn view(&self) -> ParamView {
        ParamView { name: self.name@, value: self.value@ }
    }
}

/// What a record of query options holds.
#[verifier::ext_equal]
pub struct QueryOptsView {
    pub query_id: Option<Seq<u8>>,
    pub settings: Seq<SettingView>,
    pub params: Seq<ParamView>,
}

impl View for sys::chc_query_opts {
    type V = QueryOptsView;

    open spec fn view(&self) -> QueryOptsView {
        QueryOptsView {
            query_id: match self.query_id {
                Some(id) => Some(id@),
                None => None,
            },
            settings: self.settings@.map_values(|s: sys::chc_query_setting| s@),
            params: self.params@.map_values(|p: sys::chc_query_param| p@),
        }
    }
}

/// Record of a setting.
pub open spec fn raw_setting(s: QuerySetting<'_>) -> Result<SettingView, error::ErrorView> {
    match c_string_of("query setting name"@, s.name@) {
        Err(e) => Err(e),
        Ok(name) => match c_string_of("query setting value"@, s.value@) {
            Err(e) => Err(e),
            Ok(value) => Ok(
                SettingView { name, value, important: s.important, custom: s.custom },
            ),
        },
    }
}

/// Record of a parameter.
pub open spec fn raw_param(p: QueryParam<'_>) -> Result<ParamView, error::ErrorView> {
    match c_string_of("query parameter name"@, p.name@) {
        Err(e) => Err(e),
        Ok(name) => match c_string_of("query parameter value"@, p.value@) {
            Err(e) => Err(e),
            Ok(value) => Ok(ParamView { name, value }),
        },
    }
}

/// Records of settings, in order, or the error of the first that has one.
pub open spec fn raw_settings(settings: Seq<QuerySetting<'_>>) -> Result<
    Seq<SettingView>,
    error::ErrorView,
>
    decreases settings.len(),
{
    if settings.len() == 0 {
        Ok(Seq::empty())
    } else {
        match raw_settings(settings.drop_last()) {
            Err(e) => Err(e),
            Ok(before) => match raw_setting(settings.last()) {
                Err(e) => Err(e),
                Ok(last) => Ok(before.push(last)),
            },
        }
    }
}

/// Records of parameters, in order, or the error of the first that has one.
pub open spec fn raw_params(params: Seq<QueryParam<'_>>) -> Result<
    Seq<ParamView>,
    error::ErrorView,
>
    decreases params.len(),
{
    if params.len() == 0 {
        Ok(Seq::empty())
    } else {
        match raw_params(params.drop_last()) {
            Err(e) => Err(e),
            Ok(before) => match raw_param(params.last()) {
                Err(e) => Err(e),
                Ok(last) => Ok(before.push(last)),
            },
        }
    }
}

/// Record of query options. Settings are converted before parameters, and the
/// first string with a null byte decides the error. The identifier carries its
/// length and is not searched for null bytes.
pub open spec fn raw_query_opts(opts: QueryOpts<'_>) -> Result<QueryOptsView, error::ErrorView> {
    match raw_settings(opts.settings@) {
        Err(e) => Err(e),
        Ok(settings) => match raw_params(opts.params@) {
            Err(e) => Err(e),
            Ok(params) => Ok(
                QueryOptsView {
                    query_id: match opts.query_id {
                        Some(id) => Some(encode_utf8(id@)),
                        None => None,
                    },
                    settings,
                    params,
                },
            ),
        },
    }
}

/// A conversion that fails on some settings fails the same way on more of
/// them.
proof fn lemma_settings_error_stays(settings: Seq<QuerySetting<'_>>, n: int)
    requires
        0 <= n <= settings.len(),
        raw_settings(settings.take(n)) is Err,
    ensures
        raw_settings(settings) == raw_settings(settings.take(n)),
    decreases settings.len(),
{
    if n < settings.len() {
        assert(settings.drop_last().take(n) =~= settings.take(n));
        lemma_settings_error_stays(settings.drop_last(), n);
    } else {
        assert(settings.take(n) =~= settings);
    }
}

/// A conversion that fails on some parameters fails the same way on more of
/// them.
proof fn lemma_params_error_stays(params: Seq<QueryParam<'_>>, n: int)
    requires
        0 <= n <= params.len(),
        raw_params(params.take(n)) is Err,
    ensures
        raw_params(params) == raw_params(params.take(n)),
    decreases params.len(),
{
    if n < params.len() {
        assert(params.drop_last().take(n) =~= params.take(n));
        lemma_params_error_stays(params.drop_last(), n);
    } else {
        assert(params.take(n) =~= params);
    }
}

fn setting_record(s: &QuerySetting<'_>) -> (result: Result<sys::chc_query_setting, Error>)
    ensures
        match result {
            Ok(record) => raw_setting(*s) == Ok::<SettingView, error::ErrorView>(record@),
            Err(e) => raw_setting(*s) == Err::<SettingView, error::ErrorView>(e@),
        },
{
    match cstring("query setting name", s.name) {
        Err(e) => Err(e),
        Ok(name) => match cstring("query setting value", s.value) {
            Err(e) => Err(e),
            Ok(value) => Ok(
                sys::chc_query_setting { name, value, important: s.important, custom: s.custom },
            ),
        },
    }
}

fn param_record(p: &QueryParam<'_>) -> (result: Result<sys::chc_query_param, Error>)
    ensures
        match result {
            Ok(record) => raw_param(*p) == Ok::<ParamView, error::ErrorView>(record@),
            Err(e) => raw_param(*p) == Err::<ParamView, error::ErrorView>(e@),
        },
{
    match cstring("query parameter name", p.name) {
        Err(e) => Err(e),
        Ok(name) => match cstring("query parameter value", p.value) {
            Err(e) => Err(e),
            Ok(value) => Ok(sys::chc_query_param { name, value }),
        },
    }
}

/// Owns null-terminated query strings.
pub struct RawQueryOpts {
    pub raw: sys::chc_query_opts,
}

impl RawQueryOpts {
    /// Converts query options. The first string that holds a null byte is
    /// reported, settings before parameters and names before values.
    pub fn new(opts: &QueryOpts<'_>) -> (result: Result<Self, Error>)
        ensures
            match result {
                Ok(converted) => raw_query_opts(*opts) == Ok::<QueryOptsView, error::ErrorView>(
                    converted.raw@,
                ),
                Err(e) => raw_query_opts(*opts) == Err::<QueryOptsView, error::ErrorView>(e@),
            },
    {
        let ghost setting_view = |s: sys::chc_query_setting| s@;
        let ghost param_view = |p: sys::chc_query_param| p@;
        let mut settings: Vec<sys::chc_query_setting> = Vec::new();
        let mut i: usize = 0;
        assert(settings@.map_values(setting_view) =~= Seq::<SettingView>::empty());
        while i < opts.settings.len()
            invariant
                i <= opts.settings@.len(),
                setting_view == |s: sys::chc_query_setting| s@,
                raw_settings(opts.settings@.take(i as int)) == Ok::<
                    Seq<SettingView>,
                    error::ErrorView,
                >(settings@.map_values(setting_view)),
            decreases opts.settings@.len() - i,
        {
            let ghost done = opts.settings@.take(i + 1);
            proof {
                assert(done.drop_last() =~= opts.settings@.take(i as int));
                assert(done.last() == opts.settings@[i as int]);
            }
            match setting_record(&opts.settings[i]) {
                Ok(record) => {
                    let ghost before = settings@;
                    settings.push(record);
                    assert(settings@.map_values(setting_view) =~= before.map_values(
                        setting_view,
                    ).push(record@));
                },
                Err(e) => {
                    proof {
                        lemma_settings_error_stays(opts.settings@, i + 1);
                    }
                    return Err(e);
                },
            }
            i = i + 1;
        }
        assert(opts.settings@.take(i as int) =~= opts.settings@);
        let mut params: Vec<sys::chc_query_param> = Vec::new();
        let mut j: usize = 0;
        assert(params@.map_values(param_view) =~= Seq::<ParamView>::empty());
        while j < opts.params.len()
            invariant
                j <= opts.params@.len(),
                param_view == |p: sys::chc_query_param| p@,
                raw_settings(opts.settings@) is Ok,
                raw_params(opts.params@.take(j as int)) == Ok::<Seq<ParamView>, error::ErrorView>(
                    params@.map_values(param_view),
                ),
            decreases opts.params@.len() - j,
        {
            let ghost done = opts.params@.take(j + 1);
            proof {
                assert(done.drop_last() =~= opts.params@.take(j as int));
                assert(done.last() == opts.params@[j as int]);
            }
            match param_record(&opts.params[j]) {
                Ok(record) => {
                    let ghost before = params@;
                    params.push(record);
                    assert(params@.map_values(param_view) =~= before.map_values(
                        param_view,
                    ).push(record@));
                },
                Err(e) => {
                    proof {
                        lemma_params_error_stays(opts.params@, j + 1);
                    }
                    return Err(e);
                },
            }
            j = j + 1;
        }
        assert(opts.params@.take(j as int) =~= opts.params@);
        let query_id = match opts.query_id {
            Some(id) => Some(text::copied(id.as_bytes())),
            None => None,
        };
        Ok(RawQueryOpts { raw: sys::chc_query_opts { query_id, settings, params } })
    }

    /// Record behind these options.
    pub fn as_raw(&self) -> (raw: &sys::chc_query_opts)
        ensures
            *raw == self.raw,
    {
        &self.raw
    }
}

/// Settings reach the record in order and one for one, or the error is that of
/// the first setting that has one.
pub proof fn law_settings_in_order(settings: Seq<QuerySetting<'_>>)
    ensures
        match raw_settings(settings) {
            Ok(records) => {
                &&& records.len() == settings.len()
                &&& forall|i: int|
                    0 <= i < settings.len() ==> raw_setting(#[trigger] settings[i]) == Ok::<
                        SettingView,
                        error::ErrorView,
                    >(records[i])
            },
            Err(e) => exists|i: int|
                #![trigger settings[i]]
                {
                    &&& 0 <= i < settings.len()
                    &&& raw_setting(settings[i]) == Err::<SettingView, error::ErrorView>(e)
                    &&& forall|k: int| 0 <= k < i ==> raw_setting(#[trigger] settings[k]) is Ok
                },
        },
    decreases settings.len(),
{
    if settings.len() > 0 {
        let before = settings.drop_last();
        law_settings_in_order(before);
        let n = before.len() as int;
        match raw_settings(before) {
            Ok(records) => {
                assert forall|k: int| 0 <= k < n implies raw_setting(
                    #[trigger] settings[k],
                ) is Ok by {
                    assert(before[k] == settings[k]);
                }
                match raw_settings(settings) {
                    Ok(all) => {
                        assert forall|i: int| 0 <= i < settings.len() implies raw_setting(
                            #[trigger] settings[i],
                        ) == Ok::<SettingView, error::ErrorView>(all[i]) by {
                            if i < n {
                                assert(before[i] == settings[i]);
                            }
                        }
                    },
                    Err(e) => {
                        assert(raw_setting(settings[n]) == Err::<SettingView, error::ErrorView>(
                            e,
                        ));
                    },
                }
            },
            Err(e) => {
                let i = choose|i: int|
                    #![trigger before[i]]
                    {
                        &&& 0 <= i < before.len()
                        &&& raw_setting(before[i]) == Err::<SettingView, error::ErrorView>(e)
                        &&& forall|k: int| 0 <= k < i ==> raw_setting(#[trigger] before[k]) is Ok
                    };
                assert(before[i] == settings[i]);
                assert forall|k: int| 0 <= k < i implies raw_setting(
                    #[trigger] settings[k],
                ) is Ok by {
                    assert(before[k] == settings[k]);
                }
                assert(raw_setting(settings[i]) == Err::<SettingView, error::ErrorView>(e));
            },
        }
    }
}

/// Parameters reach the record in order and one for one, or the error is that
/// of the first parameter that has one.
pub proof fn law_params_in_order(params: Seq<QueryParam<'_>>)
    ensures
        match raw_params(params) {
            Ok(records) => {
                &&& records.len() == params.len()
                &&& forall|i: int|
                    0 <= i < params.len() ==> raw_param(#[trigger] params[i]) == Ok::<
                        ParamView,
                        error::ErrorView,
                    >(records[i])
            },
            Err(e) => exists|i: int|
                #![trigger params[i]]
                {
                    &&& 0 <= i < params.len()
                    &&& raw_param(params[i]) == Err::<ParamView, error::ErrorView>(e)
                    &&& forall|k: int| 0 <= k < i ==> raw_param(#[trigger] params[k]) is Ok
                },
        },
    decreases params.len(),
{
    if params.len() > 0 {
        let before = params.drop_last();
        law_params_in_order(before);
        let n = before.len() as int;
        match raw_params(before) {
            Ok(records) => {
                assert forall|k: int| 0 <= k < n implies raw_param(#[trigger] params[k]) is Ok by {
                    assert(before[k] == params[k]);
                }
                match raw_params(params) {
                    Ok(all) => {
                        assert forall|i: int| 0 <= i < params.len() implies raw_param(
                            #[trigger] params[i],
                        ) == Ok::<ParamView, error::ErrorView>(all[i]) by {
                            if i < n {
                                assert(before[i] == params[i]);
                            }
                        }
                    },
                    Err(e) => {
                        assert(raw_param(params[n]) == Err::<ParamView, error::ErrorView>(e));
                    },
                }
            },
            Err(e) => {
                let i = choose|i: int|
                    #![trigger before[i]]
                    {
                        &&& 0 <= i < before.len()
                        &&& raw_param(before[i]) == Err::<ParamView, error::ErrorView>(e)
                        &&& forall|k: int| 0 <= k < i ==> raw_param(#[trigger] before[k]) is Ok
                    };
                assert(before[i] == params[i]);
                assert forall|k: int| 0 <= k < i implies raw_param(#[trigger] params[k]) is Ok by {
                    assert(before[k] == params[k]);
                }
                assert(raw_param(params[i]) == Err::<ParamView, error::ErrorView>(e));
            },
        }
    }
}

/// What the record of setting `i` holds is that setting: a reader that stops
/// at the first null byte finds its name and its value, and the flags agree.
pub proof fn law_setting_strings_read_back(settings: Seq<QuerySetting<'_>>, i: int)
    requires
        0 <= i < settings.len(),
    ensures
        raw_settings(settings) matches Ok(records) ==> {
            let record = records[i];
            &&& record.name.take(text::first_nul(record.name) as int) == encode_utf8(
                settings[i].name@,
            )
            &&& record.value.take(text::first_nul(record.value) as int) == encode_utf8(
                settings[i].value@,
            )
            &&& record.important == settings[i].important
            &&& record.custom == settings[i].custom
        },
{
    law_settings_in_order(settings);
    law_c_string_reads_back("query setting name"@, settings[i].name@);
    law_c_string_reads_back("query setting value"@, settings[i].value@);
    if let Ok(records) = raw_settings(settings) {
        assert(raw_setting(settings[i]) == Ok::<SettingView, error::ErrorView>(records[i]));
    }
}

/// What the record of parameter `i` holds is that parameter: a reader that
/// stops at the first null byte finds its name and its value.
pub proof fn law_param_strings_read_back(params: Seq<QueryParam<'_>>, i: int)
    requires
        0 <= i < params.len(),
    ensures
        raw_params(params) matches Ok(records) ==> {
            let record = records[i];
            &&& record.name.take(text::first_nul(record.name) as int) == encode_utf8(
                params[i].name@,
            )
            &&& record.value.take(text::first_nul(record.value) as int) == encode_utf8(
                params[i].value@,
            )
        },
{
    law_params_in_order(params);
    law_c_string_reads_back("query parameter name"@, params[i].name@);
    law_c_string_reads_back("query parameter value"@, params[i].value@);
    if let Ok(records) = raw_params(params) {
        assert(raw_param(params[i]) == Ok::<ParamView, error::ErrorView>(records[i]));
    }
}

/// Whether a string may be sent: it holds no null byte.
pub open spec fn sendable(s: &str) -> bool {
    !encode_utf8(s@).contains(0)
}

/// Whether a field holds a string, with a null byte behind it.
pub open spec fn carries(field: Vec<u8>, s: &str) -> bool {
    field@ == encode_utf8(s@).push(0)
}

/// Whether `e` refuses `s` under the name `label`: a usage error that says where
/// the first null byte of the string is.
pub open spec fn refuses(e: Error, label: Seq<char>, s: &str) -> bool {
    &&& e.kind == error::ErrorKind::Usage
    &&& e.server_code == 0 && e.server_name@.len() == 0
    &&& exists|at: int|
        {
            &&& 0 <= at < encode_utf8(s@).len()
            &&& #[trigger] encode_utf8(s@)[at] == 0
            &&& forall|i: int| 0 <= i < at ==> #[trigger] encode_utf8(s@)[i] != 0
            &&& e.message@ == label + " has an interior NUL at byte "@ + text::decimal(at as nat)
        }
}

/// The error of a conversion refuses the string that was converted.
proof fn lemma_refuses(label: Seq<char>, s: &str, e: Error)
    requires
        c_string_of(label, s@) == Err::<Seq<u8>, error::ErrorView>(e@),
    ensures
        refuses(e, label, s),
        !sendable(s),
{
    let bytes = encode_utf8(s@);
    let at = text::first_nul(bytes);
    text::lemma_first_nul(bytes);
    law_c_string_refuses_nul(label, s@);
    assert(bytes[at as int] == 0);
    assert(e@.message == label + " has an interior NUL at byte "@ + text::decimal(at));
}

/// A string without null bytes is sent whole, with one null byte behind it, and
/// another one is refused.
pub proof fn law_string_is_sent_whole_or_refused(
    label: &str,
    s: &str,
    result: Result<Vec<u8>, Error>,
)
    requires
        call_ensures(cstring, (label, s), result),
    ensures
        result is Ok <==> sendable(s),
        match result {
            Ok(bytes) => carries(bytes, s),
            Err(e) => refuses(e, label@, s),
        },
{
    law_c_string_refuses_nul(label@, s@);
    if let Err(e) = result {
        lemma_refuses(label@, s, e);
    }
}

/// A setting says what it was made of, and each mark sets one flag.
pub proof fn law_setting_keeps_name_and_value<'a>(
    name: &'a str,
    value: &'a str,
    setting: QuerySetting<'a>,
    given: QuerySetting<'a>,
    important: QuerySetting<'a>,
    custom: QuerySetting<'a>,
)
    requires
        call_ensures(QuerySetting::new, (name, value), setting),
        call_ensures(QuerySetting::important, (given,), important),
        call_ensures(QuerySetting::custom, (given,), custom),
    ensures
        setting.name == name && setting.value == value,
        !setting.important && !setting.custom,
        important.name == given.name && important.value == given.value,
        important.important && important.custom == given.custom,
        custom.name == given.name && custom.value == given.value,
        custom.custom && custom.important == given.important,
{
}

/// The setting for text type names switches their binary encoding off.
pub proof fn law_text_type_names_are_asked_for(setting: QuerySetting<'static>)
    requires
        call_ensures(QuerySetting::text_type_names, (), setting),
    ensures
        setting.name@ == "output_format_native_encode_types_in_binary_format"@,
        setting.value@ == "0"@,
        !setting.important && !setting.custom,
{
}

/// A parameter says what it was made of.
pub proof fn law_param_keeps_name_and_value<'a>(
    name: &'a str,
    value: &'a str,
    param: QueryParam<'a>,
)
    requires
        call_ensures(QueryParam::new, (name, value), param),
    ensures
        param.name == name && param.value == value,
{
}

/// New options are empty, and each part is set alone.
pub proof fn law_each_part_is_set_alone<'a>(
    opts: QueryOpts<'a>,
    id: &'a str,
    settings: &'a [QuerySetting<'a>],
    params: &'a [QueryParam<'a>],
    new: QueryOpts<'a>,
    default: QueryOpts<'a>,
    named: QueryOpts<'a>,
    tuned: QueryOpts<'a>,
    bound: QueryOpts<'a>,
)
    requires
        call_ensures(QueryOpts::new, (), new),
        call_ensures(<QueryOpts as Default>::default, (), default),
        call_ensures(QueryOpts::query_id, (opts, id), named),
        call_ensures(QueryOpts::settings, (opts, settings), tuned),
        call_ensures(QueryOpts::params, (opts, params), bound),
    ensures
        new.query_id is None && new.settings@.len() == 0 && new.params@.len() == 0,
        default.query_id is None && default.settings@.len() == 0 && default.params@.len() == 0,
        named.query_id == Some(id) && named.settings == opts.settings && named.params
            == opts.params,
        tuned.query_id == opts.query_id && tuned.settings == settings && tuned.params
            == opts.params,
        bound.query_id == opts.query_id && bound.settings == opts.settings && bound.params
            == params,
{
}

/// Whether a record carries a setting: its name, its value and its flags.
pub open spec fn carries_setting(record: sys::chc_query_setting, s: QuerySetting<'_>) -> bool {
    &&& carries(record.name, s.name)
    &&& carries(record.value, s.value)
    &&& record.important == s.important
    &&& record.custom == s.custom
}

/// Whether a record carries a parameter: its name and its value.
pub open spec fn carries_param(record: sys::chc_query_param, p: QueryParam<'_>) -> bool {
    &&& carries(record.name, p.name)
    &&& carries(record.value, p.value)
}

/// The record that is sent along with a query carries the identifier that was
/// given, byte for byte, and none where none was given.
pub proof fn law_query_carries_its_identifier(
    opts: QueryOpts<'_>,
    result: Result<RawQueryOpts, Error>,
)
    requires
        call_ensures(RawQueryOpts::new, (&opts,), result),
    ensures
        result matches Ok(converted) ==> match (opts.query_id, converted.raw.query_id) {
            (Some(id), Some(bytes)) => bytes@ == encode_utf8(id@),
            (None, None) => true,
            _ => false,
        },
{
    if let Ok(converted) = result {
        assert(converted.raw@.query_id == match opts.query_id {
            Some(id) => Some(encode_utf8(id@)),
            None => None,
        });
    }
}

/// The record that is sent along with a query carries every setting that was
/// given, each in its place and none besides.
pub proof fn law_query_carries_every_setting(
    opts: QueryOpts<'_>,
    result: Result<RawQueryOpts, Error>,
    i: int,
)
    requires
        call_ensures(RawQueryOpts::new, (&opts,), result),
    ensures
        result matches Ok(converted) ==> {
            &&& converted.raw.settings@.len() == opts.settings@.len()
            &&& 0 <= i < opts.settings@.len() ==> carries_setting(
                converted.raw.settings@[i],
                opts.settings@[i],
            )
        },
{
    if let Ok(converted) = result {
        let raw = converted.raw;
        law_settings_in_order(opts.settings@);
        assert(raw_settings(opts.settings@) == Ok::<Seq<SettingView>, error::ErrorView>(
            raw@.settings,
        ));
        assert(raw@.settings.len() == raw.settings@.len());
        if 0 <= i < opts.settings@.len() {
            assert(raw_setting(opts.settings@[i]) == Ok::<SettingView, error::ErrorView>(
                raw@.settings[i],
            ));
            assert(raw@.settings[i] == raw.settings@[i]@);
        }
    }
}

/// The record that is sent along with a query carries every parameter that was
/// given, each in its place and none besides.
pub proof fn law_query_carries_every_param(
    opts: QueryOpts<'_>,
    result: Result<RawQueryOpts, Error>,
    i: int,
)
    requires
        call_ensures(RawQueryOpts::new, (&opts,), result),
    ensures
        result matches Ok(converted) ==> {
            &&& converted.raw.params@.len() == opts.params@.len()
            &&& 0 <= i < opts.params@.len() ==> carries_param(
                converted.raw.params@[i],
                opts.params@[i],
            )
        },
{
    if let Ok(converted) = result {
        let raw = converted.raw;
        law_params_in_order(opts.params@);
        assert(raw_params(opts.params@) == Ok::<Seq<ParamView>, error::ErrorView>(raw@.params));
        assert(raw@.params.len() == raw.params@.len());
        if 0 <= i < opts.params@.len() {
            assert(raw_param(opts.params@[i]) == Ok::<ParamView, error::ErrorView>(
                raw@.params[i],
            ));
            assert(raw@.params[i] == raw.params@[i]@);
        }
    }
}

/// Whether both strings of a setting may be sent.
pub open spec fn setting_is_sendable(s: QuerySetting<'_>) -> bool {
    sendable(s.name) && sendable(s.value)
}

/// Whether both strings of a parameter may be sent.
pub open spec fn param_is_sendable(p: QueryParam<'_>) -> bool {
    sendable(p.name) && sendable(p.value)
}

/// A setting converts where both of its strings may be sent, and the error
/// refuses the first that may not.
proof fn lemma_setting_refused(s: QuerySetting<'_>)
    ensures
        raw_setting(s) is Ok <==> setting_is_sendable(s),
        forall|e: Error|
            #[trigger] raw_setting(s) == Err::<SettingView, error::ErrorView>(e@) ==> refuses(
                e,
                if sendable(s.name) {
                    "query setting value"@
                } else {
                    "query setting name"@
                },
                if sendable(s.name) {
                    s.value
                } else {
                    s.name
                },
            ),
{
    law_c_string_refuses_nul("query setting name"@, s.name@);
    law_c_string_refuses_nul("query setting value"@, s.value@);
    assert forall|e: Error|
        #[trigger] raw_setting(s) == Err::<SettingView, error::ErrorView>(e@) implies refuses(
        e,
        if sendable(s.name) {
            "query setting value"@
        } else {
            "query setting name"@
        },
        if sendable(s.name) {
            s.value
        } else {
            s.name
        },
    ) by {
        if sendable(s.name) {
            lemma_refuses("query setting value"@, s.value, e);
        } else {
            lemma_refuses("query setting name"@, s.name, e);
        }
    }
}

/// A parameter converts where both of its strings may be sent, and the error
/// refuses the first that may not.
proof fn lemma_param_refused(p: QueryParam<'_>)
    ensures
        raw_param(p) is Ok <==> param_is_sendable(p),
        forall|e: Error|
            #[trigger] raw_param(p) == Err::<ParamView, error::ErrorView>(e@) ==> refuses(
                e,
                if sendable(p.name) {
                    "query parameter value"@
                } else {
                    "query parameter name"@
                },
                if sendable(p.name) {
                    p.value
                } else {
                    p.name
                },
            ),
{
    law_c_string_refuses_nul("query parameter name"@, p.name@);
    law_c_string_refuses_nul("query parameter value"@, p.value@);
    assert forall|e: Error|
        #[trigger] raw_param(p) == Err::<ParamView, error::ErrorView>(e@) implies refuses(
        e,
        if sendable(p.name) {
            "query parameter value"@
        } else {
            "query parameter name"@
        },
        if sendable(p.name) {
            p.value
        } else {
            p.name
        },
    ) by {
        if sendable(p.name) {
            lemma_refuses("query parameter value"@, p.value, e);
        } else {
            lemma_refuses("query parameter name"@, p.name, e);
        }
    }
}

/// Options convert exactly where no string of a setting or a parameter holds a
/// null byte. The identifier may hold any.
pub proof fn law_query_is_refused_for_null_bytes_alone(
    opts: QueryOpts<'_>,
    result: Result<RawQueryOpts, Error>,
)
    requires
        call_ensures(RawQueryOpts::new, (&opts,), result),
    ensures
        result is Ok <==> {
            &&& forall|i: int|
                0 <= i < opts.settings@.len() ==> setting_is_sendable(#[trigger] opts.settings@[i])
            &&& forall|i: int|
                0 <= i < opts.params@.len() ==> param_is_sendable(#[trigger] opts.params@[i])
        },
{
    law_settings_in_order(opts.settings@);
    law_params_in_order(opts.params@);
    assert forall|i: int| 0 <= i < opts.settings@.len() implies (raw_setting(
        #[trigger] opts.settings@[i],
    ) is Ok <==> setting_is_sendable(opts.settings@[i])) by {
        lemma_setting_refused(opts.settings@[i]);
    }
    assert forall|i: int| 0 <= i < opts.params@.len() implies (raw_param(
        #[trigger] opts.params@[i],
    ) is Ok <==> param_is_sendable(opts.params@[i])) by {
        lemma_param_refused(opts.params@[i]);
    }
}

/// The first setting with a null byte is refused, its name before its value.
pub proof fn law_first_bad_setting_is_refused(
    opts: QueryOpts<'_>,
    result: Result<RawQueryOpts, Error>,
    i: int,
)
    requires
        call_ensures(RawQueryOpts::new, (&opts,), result),
        0 <= i < opts.settings@.len(),
        !setting_is_sendable(opts.settings@[i]),
        forall|k: int| 0 <= k < i ==> setting_is_sendable(#[trigger] opts.settings@[k]),
    ensures
        result matches Err(e) && if sendable(opts.settings@[i].name) {
            refuses(e, "query setting value"@, opts.settings@[i].value)
        } else {
            refuses(e, "query setting name"@, opts.settings@[i].name)
        },
{
    law_settings_in_order(opts.settings@);
    assert forall|k: int| 0 <= k <= i implies (raw_setting(#[trigger] opts.settings@[k]) is Ok
        <==> k < i) by {
        lemma_setting_refused(opts.settings@[k]);
    }
    lemma_setting_refused(opts.settings@[i]);
}

/// Behind settings without null bytes the first parameter with one is refused,
/// its name before its value.
pub proof fn law_first_bad_param_is_refused(
    opts: QueryOpts<'_>,
    result: Result<RawQueryOpts, Error>,
    i: int,
)
    requires
        call_ensures(RawQueryOpts::new, (&opts,), result),
        forall|k: int|
            0 <= k < opts.settings@.len() ==> setting_is_sendable(#[trigger] opts.settings@[k]),
        0 <= i < opts.params@.len(),
        !param_is_sendable(opts.params@[i]),
        forall|k: int| 0 <= k < i ==> param_is_sendable(#[trigger] opts.params@[k]),
    ensures
        result matches Err(e) && if sendable(opts.params@[i].name) {
            refuses(e, "query parameter value"@, opts.params@[i].value)
        } else {
            refuses(e, "query parameter name"@, opts.params@[i].name)
        },
{
    law_settings_in_order(opts.settings@);
    law_params_in_order(opts.params@);
    assert forall|k: int| 0 <= k < opts.settings@.len() implies raw_setting(
        #[trigger] opts.settings@[k],
    ) is Ok by {
        lemma_setting_refused(opts.settings@[k]);
    }
    assert forall|k: int| 0 <= k <= i implies (raw_param(#[trigger] opts.params@[k]) is Ok <==> k
        < i) by {
        lemma_param_refused(opts.params@[k]);
    }
    lemma_param_refused(opts.params@[i]);
}

/// The options that are handed over are those that were converted.
pub proof fn law_record_is_handed_over(opts: RawQueryOpts, raw: &sys::chc_query_opts)
    requires
        call_ensures(RawQueryOpts::as_raw, (&opts,), raw),
    ensures
        *raw == opts.raw,
{
}

} // verus!
