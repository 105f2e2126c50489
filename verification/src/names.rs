//! The names of the settings and their resolution.
//!
//! A setting that is not hidden has one name, in lower case. A name resolves
//! to its setting whatever the case of its ASCII letters; nothing else
//! resolves, and no prefix or near miss is accepted.

use crate::settings::AppSettings;
use std::str::FromStr;
use vstd::prelude::*;

verus! {

/// What resolution answers to a name that no setting has.
pub const UNKNOWN_SETTING: &'static str = "unknown AppSetting, cannot convert from str";

/// What is to be told to whoever uses the deprecated setting.
pub const VERSIONLESS_SUBCOMMANDS_NOTICE: &'static str =
    "Use App::set_global(AppSettings::DisableVersion) instead";

/// The lower-case form of an ASCII capital; any other character is itself.
pub open spec fn ascii_lower(c: char) -> char {
    if 'A' <= c <= 'Z' {
        ((c as u8) + 32) as char
    } else {
        c
    }
}

/// A text with each ASCII capital in lower case.
pub open spec fn ascii_fold(s: Seq<char>) -> Seq<char> {
    s.map_values(|c: char| ascii_lower(c))
}

/// There is no ASCII capital among the first `n` characters of `s`.
pub open spec fn no_capital(s: Seq<char>, n: nat) -> bool
    decreases n,
{
    n == 0 || (!('A' <= s[n - 1] <= 'Z') && no_capital(s, (n - 1) as nat))
}

/// The setting that a name resolves to, if any.
pub open spec fn resolve(name: Seq<char>) -> Option<AppSettings> {
    if exists|s: AppSettings| s.name() == Some(ascii_fold(name)) {
        Some(choose|s: AppSettings| s.name() == Some(ascii_fold(name)))
    } else {
        None
    }
}

fn lower_char(c: char) -> (r: char)
    ensures
        r == ascii_lower(c),
{
    if 'A' <= c && c <= 'Z' {
        ((c as u8) + 32) as char
    } else {
        c
    }
}

/// The characters of `s`, each ASCII capital in lower case.
fn fold(s: &str) -> (r: Vec<char>)
    ensures
        r@ == ascii_fold(s@),
{
    let mut out: Vec<char> = Vec::new();
    for c in it: s.chars()
        invariant
            it.seq() == s@,
            out@ == ascii_fold(s@.take(it.index())),
    {
        out.push(lower_char(c));
        assert(s@.take(it.index() + 1) == s@.take(it.index()).push(c));
    }
    assert(s@.take(s@.len() as int) == s@);
    out
}

/// Whether `chars` are the characters of `key`, one for one.
fn spells(chars: &Vec<char>, key: &str) -> (r: bool)
    ensures
        r == (chars@ == key@),
{
    let mut i: usize = 0;
    for c in it: key.chars()
        invariant
            it.seq() == key@,
            i == it.index(),
            i <= chars@.len(),
            chars@.take(i as int) == key@.take(i as int),
    {
        if i >= chars.len() || chars[i] != c {
            assert(chars@ != key@);
            return false;
        }
        assert(key@.take(i + 1) == key@.take(i as int).push(c));
        assert(chars@.take(i + 1) == chars@.take(i as int).push(c));
        i += 1;
    }
    assert(key@.take(i as int) == key@);
    if i == chars.len() {
        assert(chars@.take(i as int) == chars@);
        true
    } else {
        false
    }
}

/// The setting whose name is `key`, character for character.
fn lookup(key: &Vec<char>) -> (r: Option<AppSettings>)
    ensures
        match r {
            Some(v) => v.name() == Some(key@),
            None => forall|w: AppSettings| w.name() != Some(key@),
        },
{
    if spells(key, "allowinvalidutf8") {
        Some(AppSettings::AllowInvalidUtf8)
    } else if spells(key, "allowleadinghyphen") {
        Some(AppSettings::AllowLeadingHyphen)
    } else if spells(key, "allownegativenumbers") {
        Some(AppSettings::AllowNegativeNumbers)
    } else if spells(key, "allowmissingpositional") {
        Some(AppSettings::AllowMissingPositional)
    } else if spells(key, "allowexternalsubcommands") {
        Some(AppSettings::AllowExternalSubcommands)
    } else if spells(key, "argsnegatesubcommands") {
        Some(AppSettings::ArgsNegateSubcommands)
    } else if spells(key, "argrequiredelsehelp") {
        Some(AppSettings::ArgRequiredElseHelp)
    } else if spells(key, "coloredhelp") {
        Some(AppSettings::ColoredHelp)
    } else if spells(key, "colorauto") {
        Some(AppSettings::ColorAuto)
    } else if spells(key, "coloralways") {
        Some(AppSettings::ColorAlways)
    } else if spells(key, "colornever") {
        Some(AppSettings::ColorNever)
    } else if spells(key, "dontcollapseargsinusage") {
        Some(AppSettings::DontCollapseArgsInUsage)
    } else if spells(key, "dontdelimittrailingvalues") {
        Some(AppSettings::DontDelimitTrailingValues)
    } else if spells(key, "disablehelpsubcommand") {
        Some(AppSettings::DisableHelpSubcommand)
    } else if spells(key, "disableversion") {
        Some(AppSettings::DisableVersion)
    } else if spells(key, "disablehelp") {
        Some(AppSettings::DisableHelp)
    } else if spells(key, "disablehelpandversion") {
        Some(AppSettings::DisableHelpAndVersion)
    } else if spells(key, "derivedisplayorder") {
        Some(AppSettings::DeriveDisplayOrder)
    } else if spells(key, "globalversion") {
        Some(AppSettings::GlobalVersion)
    } else if spells(key, "hidden") {
        Some(AppSettings::Hidden)
    } else if spells(key, "hidepossiblevaluesinhelp") {
        Some(AppSettings::HidePossibleValuesInHelp)
    } else if spells(key, "infersubcommands") {
        Some(AppSettings::InferSubcommands)
    } else if spells(key, "nobinaryname") {
        Some(AppSettings::NoBinaryName)
    } else if spells(key, "nextlinehelp") {
        Some(AppSettings::NextLineHelp)
    } else if spells(key, "propagateglobalvaluesdown") {
        Some(AppSettings::PropagateGlobalValuesDown)
    } else if spells(key, "subcommandsnegatereqs") {
        Some(AppSettings::SubcommandsNegateReqs)
    } else if spells(key, "subcommandrequiredelsehelp") {
        Some(AppSettings::SubcommandRequiredElseHelp)
    } else if spells(key, "strictutf8") {
        Some(AppSettings::StrictUtf8)
    } else if spells(key, "subcommandrequired") {
        Some(AppSettings::SubcommandRequired)
    } else if spells(key, "trailingvararg") {
        Some(AppSettings::TrailingVarArg)
    } else if spells(key, "unifiedhelpmessage") {
        Some(AppSettings::UnifiedHelpMessage)
    } else if spells(key, "waitonerror") {
        Some(AppSettings::WaitOnError)
    } else if spells(key, "lowindexmultiplepositional") {
        Some(AppSettings::LowIndexMultiplePositional)
    } else if spells(key, "versionlesssubcommands") {
        Some(AppSettings::VersionlessSubcommands)
    } else {
        None
    }
}

impl AppSettings {
    /// The name of a setting; a hidden setting has none.
    pub open spec fn name(self) -> Option<Seq<char>> {
        match self {
            AppSettings::AllowInvalidUtf8 => Some("allowinvalidutf8"@),
            AppSettings::AllowLeadingHyphen => Some("allowleadinghyphen"@),
            AppSettings::AllowNegativeNumbers => Some("allownegativenumbers"@),
            AppSettings::AllowMissingPositional => Some("allowmissingpositional"@),
            AppSettings::AllowExternalSubcommands => Some("allowexternalsubcommands"@),
            AppSettings::ArgsNegateSubcommands => Some("argsnegatesubcommands"@),
            AppSettings::ArgRequiredElseHelp => Some("argrequiredelsehelp"@),
            AppSettings::ColoredHelp => Some("coloredhelp"@),
            AppSettings::ColorAuto => Some("colorauto"@),
            AppSettings::ColorAlways => Some("coloralways"@),
            AppSettings::ColorNever => Some("colornever"@),
            AppSettings::DontCollapseArgsInUsage => Some("dontcollapseargsinusage"@),
            AppSettings::DontDelimitTrailingValues => Some("dontdelimittrailingvalues"@),
            AppSettings::DisableHelpSubcommand => Some("disablehelpsubcommand"@),
            AppSettings::DisableVersion => Some("disableversion"@),
            AppSettings::DisableHelp => Some("disablehelp"@),
            AppSettings::DisableHelpAndVersion => Some("disablehelpandversion"@),
            AppSettings::DeriveDisplayOrder => Some("derivedisplayorder"@),
            AppSettings::GlobalVersion => Some("globalversion"@),
            AppSettings::Hidden => Some("hidden"@),
            AppSettings::HidePossibleValuesInHelp => Some("hidepossiblevaluesinhelp"@),
            AppSettings::InferSubcommands => Some("infersubcommands"@),
            AppSettings::NoBinaryName => Some("nobinaryname"@),
            AppSettings::NextLineHelp => Some("nextlinehelp"@),
            AppSettings::PropagateGlobalValuesDown => Some("propagateglobalvaluesdown"@),
            AppSettings::SubcommandsNegateReqs => Some("subcommandsnegatereqs"@),
            AppSettings::SubcommandRequiredElseHelp => Some("subcommandrequiredelsehelp"@),
            AppSettings::StrictUtf8 => Some("strictutf8"@),
            AppSettings::SubcommandRequired => Some("subcommandrequired"@),
            AppSettings::TrailingVarArg => Some("trailingvararg"@),
            AppSettings::UnifiedHelpMessage => Some("unifiedhelpmessage"@),
            AppSettings::WaitOnError => Some("waitonerror"@),
            AppSettings::LowIndexMultiplePositional => Some("lowindexmultiplepositional"@),
            AppSettings::VersionlessSubcommands => Some("versionlesssubcommands"@),
            AppSettings::TrailingValues => None,
            AppSettings::ValidNegNumFound => None,
            AppSettings::Propogated => None,
            AppSettings::ValidArgFound => None,
            AppSettings::ContainsLast => None,
        }
    }

    /// What is to be told to whoever resolves a deprecated name: `None` for
    /// a setting that is not deprecated.
    pub fn deprecation_notice(self) -> (r: Option<&'static str>)
        ensures
            r is Some <==> self.is_deprecated(),
            r matches Some(text) ==> text@ == VERSIONLESS_SUBCOMMANDS_NOTICE@,
    {
        match self {
            AppSettings::VersionlessSubcommands => Some(VERSIONLESS_SUBCOMMANDS_NOTICE),
            _ => None,
        }
    }
}

impl FromStr for AppSettings {
    type Err = String;

    /// Resolves a name, whatever the case of its ASCII letters. A deprecated
    /// name resolves like any other; `deprecation_notice` of the result says
    /// so.
    fn from_str(s: &str) -> (r: Result<AppSettings, String>)
        ensures
            match resolve(s@) {
                Some(v) => r == Ok::<AppSettings, String>(v),
                None => r matches Err(e) && e@ == UNKNOWN_SETTING@,
            },
    {
        let key = fold(s);
        match lookup(&key) {
            Some(v) => {
                proof {
                    lemma_resolve(s@, v);
                }
                Ok(v)
            },
            None => Err(UNKNOWN_SETTING.to_owned()),
        }
    }
}

/// The table of names holds no name twice and no ASCII capital.
proof fn lemma_name_table()
    ensures
        forall|a: AppSettings, b: AppSettings|
            a.name() is Some && #[trigger] a.name() == #[trigger] b.name() ==> a == b,
        forall|a: AppSettings| #[trigger] a.name() matches Some(n) ==> no_capital(n, n.len()),
{
    reveal_with_fuel(no_capital, 27);
    reveal_strlit("allowinvalidutf8");
    assert(no_capital("allowinvalidutf8"@, "allowinvalidutf8"@.len()));
    reveal_strlit("allowleadinghyphen");
    assert(no_capital("allowleadinghyphen"@, "allowleadinghyphen"@.len()));
    reveal_strlit("allownegativenumbers");
    assert(no_capital("allownegativenumbers"@, "allownegativenumbers"@.len()));
    reveal_strlit("allowmissingpositional");
    assert(no_capital("allowmissingpositional"@, "allowmissingpositional"@.len()));
    reveal_strlit("allowexternalsubcommands");
    assert(no_capital("allowexternalsubcommands"@, "allowexternalsubcommands"@.len()));
    reveal_strlit("argsnegatesubcommands");
    assert(no_capital("argsnegatesubcommands"@, "argsnegatesubcommands"@.len()));
    reveal_strlit("argrequiredelsehelp");
    assert(no_capital("argrequiredelsehelp"@, "argrequiredelsehelp"@.len()));
    reveal_strlit("coloredhelp");
    assert(no_capital("coloredhelp"@, "coloredhelp"@.len()));
    reveal_strlit("colorauto");
    assert(no_capital("colorauto"@, "colorauto"@.len()));
    reveal_strlit("coloralways");
    assert(no_capital("coloralways"@, "coloralways"@.len()));
    reveal_strlit("colornever");
    assert(no_capital("colornever"@, "colornever"@.len()));
    reveal_strlit("dontcollapseargsinusage");
    assert(no_capital("dontcollapseargsinusage"@, "dontcollapseargsinusage"@.len()));
    reveal_strlit("dontdelimittrailingvalues");
    assert(no_capital("dontdelimittrailingvalues"@, "dontdelimittrailingvalues"@.len()));
    reveal_strlit("disablehelpsubcommand");
    assert(no_capital("disablehelpsubcommand"@, "disablehelpsubcommand"@.len()));
    reveal_strlit("disableversion");
    assert(no_capital("disableversion"@, "disableversion"@.len()));
    reveal_strlit("disablehelp");
    assert(no_capital("disablehelp"@, "disablehelp"@.len()));
    reveal_strlit("disablehelpandversion");
    assert(no_capital("disablehelpandversion"@, "disablehelpandversion"@.len()));
    reveal_strlit("derivedisplayorder");
    assert(no_capital("derivedisplayorder"@, "derivedisplayorder"@.len()));
    reveal_strlit("globalversion");
    assert(no_capital("globalversion"@, "globalversion"@.len()));
    reveal_strlit("hidden");
    assert(no_capital("hidden"@, "hidden"@.len()));
    reveal_strlit("hidepossiblevaluesinhelp");
    assert(no_capital("hidepossiblevaluesinhelp"@, "hidepossiblevaluesinhelp"@.len()));
    reveal_strlit("infersubcommands");
    assert(no_capital("infersubcommands"@, "infersubcommands"@.len()));
    reveal_strlit("nobinaryname");
    assert(no_capital("nobinaryname"@, "nobinaryname"@.len()));
    reveal_strlit("nextlinehelp");
    assert(no_capital("nextlinehelp"@, "nextlinehelp"@.len()));
    reveal_strlit("propagateglobalvaluesdown");
    assert(no_capital("propagateglobalvaluesdown"@, "propagateglobalvaluesdown"@.len()));
    reveal_strlit("subcommandsnegatereqs");
    assert(no_capital("subcommandsnegatereqs"@, "subcommandsnegatereqs"@.len()));
    reveal_strlit("subcommandrequiredelsehelp");
    assert(no_capital("subcommandrequiredelsehelp"@, "subcommandrequiredelsehelp"@.len()));
    reveal_strlit("strictutf8");
    assert(no_capital("strictutf8"@, "strictutf8"@.len()));
    reveal_strlit("subcommandrequired");
    assert(no_capital("subcommandrequired"@, "subcommandrequired"@.len()));
    reveal_strlit("trailingvararg");
    assert(no_capital("trailingvararg"@, "trailingvararg"@.len()));
    reveal_strlit("unifiedhelpmessage");
    assert(no_capital("unifiedhelpmessage"@, "unifiedhelpmessage"@.len()));
    reveal_strlit("waitonerror");
    assert(no_capital("waitonerror"@, "waitonerror"@.len()));
    reveal_strlit("lowindexmultiplepositional");
    assert(no_capital("lowindexmultiplepositional"@, "lowindexmultiplepositional"@.len()));
    reveal_strlit("versionlesssubcommands");
    assert(no_capital("versionlesssubcommands"@, "versionlesssubcommands"@.len()));
}

/// Among the first `n` characters of a text without capitals there is none.
proof fn lemma_no_capital(s: Seq<char>, n: nat, i: int)
    requires
        no_capital(s, n),
        0 <= i < n,
    ensures
        !('A' <= s[i] <= 'Z'),
    decreases n,
{
    if i < n - 1 {
        lemma_no_capital(s, (n - 1) as nat, i);
    }
}

/// Folding changes nothing in a text without ASCII capitals.
pub proof fn lemma_fold_fixed(s: Seq<char>)
    requires
        no_capital(s, s.len()),
    ensures
        ascii_fold(s) == s,
{
    assert forall|i: int| 0 <= i < s.len() implies ascii_fold(s)[i] == s[i] by {
        lemma_no_capital(s, s.len(), i);
    }
    assert(ascii_fold(s) =~= s);
}

/// No two settings have the same name.
pub proof fn lemma_names_distinct(a: AppSettings, b: AppSettings)
    requires
        a.name() is Some,
        a.name() == b.name(),
    ensures
        a == b,
{
    lemma_name_table();
}

/// A name resolves to `v` exactly when it is the name of `v` but for the
/// case of its ASCII letters.
pub proof fn lemma_resolve(name: Seq<char>, v: AppSettings)
    ensures
        resolve(name) == Some(v) <==> v.name() == Some(ascii_fold(name)),
{
    lemma_name_table();
}

/// Every setting that is not hidden has a name, which is in lower case and
/// resolves to it; a hidden setting has no name, and no name resolves to it.
pub proof fn lemma_name_of(v: AppSettings)
    ensures
        v.name() is Some <==> !v.is_hidden(),
        v.name() matches Some(n) ==> ascii_fold(n) == n && resolve(n) == Some(v),
        v.is_hidden() ==> forall|name: Seq<char>| resolve(name) != Some(v),
{
    lemma_name_table();
    if v.name() is Some {
        let n = v.name()->0;
        lemma_fold_fixed(n);
        lemma_resolve(n, v);
    }
    assert forall|name: Seq<char>| v.is_hidden() implies resolve(name) != Some(v) by {
        lemma_resolve(name, v);
    }
}

/// Resolution ignores the case of ASCII letters: two names that differ only
/// in it resolve alike, and a name resolves like its lower-case form.
pub proof fn lemma_resolve_ignores_case(a: Seq<char>, b: Seq<char>)
    requires
        ascii_fold(a) == ascii_fold(b),
    ensures
        resolve(a) == resolve(b),
        resolve(ascii_fold(a)) == resolve(a),
{
    assert(ascii_fold(ascii_fold(a)) =~= ascii_fold(a));
}

/// The name of a deprecated setting resolves, to that setting, and what the
/// setting switches and its bit pattern are those of the setting that the
/// name of its replacement resolves to.
pub proof fn lemma_deprecated_resolves(d: AppSettings)
    requires
        d.is_deprecated(),
    ensures
        d.name() is Some,
        resolve(d.name()->0) == Some(d),
        d.replacement()->0.name() is Some,
        resolve(d.replacement()->0.name()->0) == Some(d.replacement()->0),
        d.members() == d.replacement()->0.members(),
        d.mask() == d.replacement()->0.mask(),
{
    lemma_name_of(d);
    lemma_name_of(d.replacement()->0);
    AppSettings::lemma_kinds(d);
}

} // verus!
