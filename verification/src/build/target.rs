//! The architecture that the native library is built for.

use crate::arch::arch_of;
use crate::arch::Arch;
use crate::build::words::chars;
use crate::build::words::entries;
use crate::build::words::entry_list;
use crate::build::words::is_text;
use crate::build::words::lower;
use crate::build::words::texts;
use crate::build::words::to_lower;
use crate::build::words::trim;
use crate::build::words::trimmed;
use crate::build::words::trimming_cuts_white_space;
use crate::text::decimal;
use crate::text::labelled;
use vstd::prelude::*;
use vstd::string::StringExecFns;

verus! {

/// `s` in double quotes with its special characters escaped, as `{:?}` of the standard library
/// formats a `str`.
pub uninterp spec fn quoted_text(s: Seq<char>) -> Seq<char>;

/// Formats `s` by the `Debug` of `str`, which `{:?}` calls. Which characters it escapes is left
/// unsaid: the result has a name.
#[verifier::external_body]
fn quoted(s: &str) -> (q: String)
    ensures
        q@ == quoted_text(s@),
{
    format!("{s:?}")
}

/// `s` with ASCII capital letters made small and without underscores and dots.
pub open spec fn plain(s: Seq<char>) -> Seq<char>
    decreases s.len(),
{
    if s.len() == 0 {
        Seq::empty()
    } else {
        let before = plain(s.drop_last());
        if s.last() == '_' || s.last() == '.' {
            before
        } else {
            before.push(lower(s.last()))
        }
    }
}

/// The form in which an architecture name is compared: trimmed, and plain.
pub open spec fn normalized(value: Seq<char>) -> Seq<char> {
    plain(trimmed(value))
}

/// The architecture that `value` names.
pub open spec fn named_arch(value: Seq<char>) -> Option<Arch> {
    let n = normalized(value);
    if n == "90"@ || n == "90a"@ || n == "sm90"@ || n == "sm90a"@ || n == "compute90a"@ {
        Some(Arch::Sm90a)
    } else if n == "100"@ || n == "100f"@ || n == "sm100"@ || n == "sm100f"@ || n
        == "compute100f"@ {
        Some(Arch::Sm100f)
    } else {
        None
    }
}

/// Whether `value` names an architecture that upstream FlashMLA leaves out on purpose.
pub open spec fn names_sm120(value: Seq<char>) -> bool {
    let n = normalized(value);
    n == "120"@ || n == "121"@ || n == "sm120"@ || n == "sm121"@
}

/// The architecture that `value` names, or why there is none. `source` says where the value comes
/// from.
pub open spec fn parsed_arch(value: Seq<char>, source: Seq<char>) -> Result<Arch, Seq<char>> {
    match named_arch(value) {
        Some(arch) => Ok(arch),
        None => Err(
            source + "="@ + quoted_text(value) + (if names_sm120(value) {
                " is unsupported by upstream FlashMLA sparse MLA"@
            } else {
                " is unsupported. Use CUDA_COMPUTE_CAP=90/100 or FLASHMLA_ARCHS=sm90a/sm100f"@
            }),
        ),
    }
}

/// The mathematical value of a result.
pub open spec fn outcome(r: Result<Arch, String>) -> Result<Arch, Seq<char>> {
    match r {
        Ok(arch) => Ok(arch),
        Err(message) => Err(message@),
    }
}

/// The form in which an architecture name is compared.
fn normalize(value: &str) -> (n: String)
    ensures
        n@ == normalized(value@),
{
    let v = chars(trim(value).as_str());
    let mut n = String::new();
    let mut i: usize = 0;
    while i < v.len()
        invariant
            i <= v@.len(),
            n@ == plain(v@.take(i as int)),
        decreases v@.len() - i,
    {
        assert(v@.take(i + 1).drop_last() == v@.take(i as int));
        let c = v[i];
        if c != '_' && c != '.' {
            n.push(to_lower(c));
        }
        i = i + 1;
    }
    assert(v@.take(i as int) == v@);
    n
}

/// Parses the name of an architecture. `source` says where the value comes from.
pub fn parse_arch(value: &str, source: &str) -> (r: Result<Arch, String>)
    ensures
        outcome(r) == parsed_arch(value@, source@),
{
    let n = normalize(value);
    if is_text(&n, "90") || is_text(&n, "90a") || is_text(&n, "sm90") || is_text(&n, "sm90a")
        || is_text(&n, "compute90a") {
        return Ok(Arch::Sm90a);
    }
    if is_text(&n, "100") || is_text(&n, "100f") || is_text(&n, "sm100") || is_text(&n, "sm100f")
        || is_text(&n, "compute100f") {
        return Ok(Arch::Sm100f);
    }
    let subject = labelled(source, "=").concat(quoted(value).as_str());
    if is_text(&n, "120") || is_text(&n, "121") || is_text(&n, "sm120") || is_text(&n, "sm121") {
        Err(subject.concat(" is unsupported by upstream FlashMLA sparse MLA"))
    } else {
        Err(
            subject.concat(
                " is unsupported. Use CUDA_COMPUTE_CAP=90/100 or FLASHMLA_ARCHS=sm90a/sm100f",
            ),
        )
    }
}

/// Where the compute capabilities of visible GPUs come from.
pub open spec fn detection_source() -> Seq<char> {
    "nvidia-smi compute capability"@
}

/// The common architecture `selected` of the GPUs of the given compute capabilities, from the
/// one at `i` on, or why there is none.
pub open spec fn common_arch(capabilities: Seq<Seq<char>>, selected: Arch, i: int) -> Result<
    Arch,
    Seq<char>,
>
    decreases capabilities.len() - i,
{
    if i >= capabilities.len() {
        Ok(selected)
    } else {
        match parsed_arch(capabilities[i], detection_source()) {
            Err(message) => Err(message),
            Ok(arch) => if arch == selected {
                common_arch(capabilities, selected, i + 1)
            } else {
                Err(
                    "nvidia-smi reported mixed GPU architectures ("@ + capabilities[0] + " and "@
                        + capabilities[i]
                        + "), but flashmla-rs builds exactly one architecture. Set CUDA_COMPUTE_CAP=90/100 or FLASHMLA_ARCHS=sm90a/sm100f explicitly"@,
                )
            },
        }
    }
}

/// The common architecture of the GPUs whose compute capabilities are listed, or why there is
/// none.
pub open spec fn detected_arch(capabilities: Seq<Seq<char>>) -> Result<Arch, Seq<char>> {
    if capabilities.len() == 0 {
        Err(
            "nvidia-smi reported no visible GPUs during CUDA architecture auto-detection. Set CUDA_COMPUTE_CAP=90/100 or FLASHMLA_ARCHS=sm90a/sm100f explicitly"@,
        )
    } else {
        match parsed_arch(capabilities[0], detection_source()) {
            Err(message) => Err(message),
            Ok(selected) => common_arch(capabilities, selected, 1),
        }
    }
}

/// Finds the common architecture of the GPUs whose compute capabilities `nvidia-smi` listed, one
/// on each line.
pub fn parse_detected_archs(output: &str) -> (r: Result<Arch, String>)
    ensures
        outcome(r) == detected_arch(entries(output@, '\n')),
{
    let capabilities = entry_list(output, '\n');
    let ghost all = texts(capabilities@);
    if capabilities.len() == 0 {
        return Err(
            String::from_str(
                "nvidia-smi reported no visible GPUs during CUDA architecture auto-detection. Set CUDA_COMPUTE_CAP=90/100 or FLASHMLA_ARCHS=sm90a/sm100f explicitly",
            ),
        );
    }
    assert(all[0] == capabilities@[0]@);
    let selected = match parse_arch(capabilities[0].as_str(), "nvidia-smi compute capability") {
        Ok(arch) => arch,
        Err(message) => return Err(message),
    };
    let mut i: usize = 1;
    while i < capabilities.len()
        invariant
            all == texts(capabilities@),
            all == entries(output@, '\n'),
            1 <= i <= capabilities@.len(),
            detected_arch(all) == common_arch(all, selected, i as int),
        decreases capabilities@.len() - i,
    {
        assert(all[i as int] == capabilities@[i as int]@);
        assert(all[0] == capabilities@[0]@);
        let arch = match parse_arch(capabilities[i].as_str(), "nvidia-smi compute capability") {
            Ok(arch) => arch,
            Err(message) => return Err(message),
        };
        if arch != selected {
            return Err(
                labelled(
                    "nvidia-smi reported mixed GPU architectures (",
                    capabilities[0].as_str(),
                ).concat(" and ").concat(capabilities[i].as_str()).concat(
                    "), but flashmla-rs builds exactly one architecture. Set CUDA_COMPUTE_CAP=90/100 or FLASHMLA_ARCHS=sm90a/sm100f explicitly",
                ),
            );
        }
        i = i + 1;
    }
    Ok(selected)
}

/// Detection succeeds if and only if some GPU is visible and all of them have the same supported
/// architecture, which is then the result.
pub proof fn detection_needs_one_common_architecture(capabilities: Seq<Seq<char>>, arch: Arch)
    ensures
        detected_arch(capabilities) == Ok::<Arch, Seq<char>>(arch) <==> capabilities.len() > 0 && (
        forall|i: int|
            0 <= i < capabilities.len() ==> named_arch(#[trigger] capabilities[i]) == Some(arch)),
{
    if capabilities.len() > 0 {
        match named_arch(capabilities[0]) {
            Some(selected) => {
                lemma_common_arch(capabilities, selected, 1);
                if selected == arch {
                } else {
                    assert(named_arch(capabilities[0]) != Some(arch));
                    lemma_common_arch_is_selected(capabilities, selected, 1);
                }
            },
            None => {},
        }
    }
}

/// A common architecture is found if and only if every capability from `i` on names it.
proof fn lemma_common_arch(capabilities: Seq<Seq<char>>, selected: Arch, i: int)
    requires
        0 <= i <= capabilities.len(),
    ensures
        common_arch(capabilities, selected, i) == Ok::<Arch, Seq<char>>(selected) <==> (forall|
            j: int,
        |
            i <= j < capabilities.len() ==> named_arch(#[trigger] capabilities[j]) == Some(
                selected,
            )),
    decreases capabilities.len() - i,
{
    if i < capabilities.len() {
        lemma_common_arch(capabilities, selected, i + 1);
        assert(named_arch(capabilities[i]) == Some(selected) || common_arch(
            capabilities,
            selected,
            i,
        ) is Err);
    }
}

/// No other architecture than the selected one is found.
proof fn lemma_common_arch_is_selected(capabilities: Seq<Seq<char>>, selected: Arch, i: int)
    ensures
        common_arch(capabilities, selected, i) matches Ok(arch) ==> arch == selected,
    decreases capabilities.len() - i,
{
    if i < capabilities.len() {
        lemma_common_arch_is_selected(capabilities, selected, i + 1);
    }
}

/// The value of an environment variable.
#[derive(Debug, PartialEq, Eq)]
pub enum EnvText {
    /// The variable is not set.
    Unset,
    /// The variable is set to something that is not Unicode.
    NotUnicode,
    /// The variable is set to a text.
    Text(String),
}

/// How the target architecture is selected.
#[derive(Debug, PartialEq, Eq)]
pub enum ArchSelection {
    /// The build is for this architecture.
    Target(Arch),
    /// The build is for an architecture that is not supported, for the given reason.
    Unsupported(String),
    /// The visible GPUs have to be asked.
    Detect,
    /// The build cannot go on, for the given reason.
    Abort(String),
}

/// The mathematical value of an [`ArchSelection`].
pub enum ArchSelectionModel {
    Target(Arch),
    Unsupported(Seq<char>),
    Detect,
    Abort(Seq<char>),
}

impl View for ArchSelection {
    type V = ArchSelectionModel;

    open spec fn view(&self) -> ArchSelectionModel {
        match self {
            ArchSelection::Target(arch) => ArchSelectionModel::Target(*arch),
            ArchSelection::Unsupported(message) => ArchSelectionModel::Unsupported(message@),
            ArchSelection::Detect => ArchSelectionModel::Detect,
            ArchSelection::Abort(message) => ArchSelectionModel::Abort(message@),
        }
    }
}

/// The selection that follows from a parsed architecture.
pub open spec fn selection_of(r: Result<Arch, Seq<char>>) -> ArchSelectionModel {
    match r {
        Ok(arch) => ArchSelectionModel::Target(arch),
        Err(message) => ArchSelectionModel::Unsupported(message),
    }
}

/// The selection by a list of architectures, which has to have one entry.
pub open spec fn listed_selection(archs: Seq<char>) -> ArchSelectionModel {
    let list = entries(archs, ',');
    if list.len() == 1 {
        selection_of(parsed_arch(list[0], "FLASHMLA_ARCHS"@))
    } else {
        ArchSelectionModel::Abort(
            "FLASHMLA_ARCHS="@ + quoted_text(archs)
                + " is not supported yet. Use exactly one of sm90a or sm100f."@,
        )
    }
}

/// The selection by a compute capability.
pub open spec fn capability_selection(compute_cap: EnvText) -> ArchSelectionModel {
    match compute_cap {
        EnvText::Unset => ArchSelectionModel::Detect,
        EnvText::NotUnicode => ArchSelectionModel::Abort(
            "CUDA_COMPUTE_CAP is not valid Unicode"@,
        ),
        EnvText::Text(value) => if trimmed(value@).len() == 0 {
            ArchSelectionModel::Abort("CUDA_COMPUTE_CAP is set but empty"@)
        } else {
            selection_of(parsed_arch(trimmed(value@), "CUDA_COMPUTE_CAP"@))
        },
    }
}

/// The selection by a list of architectures, and without one by a compute capability.
pub open spec fn selection_by(flashmla_archs: Option<String>, compute_cap: EnvText)
    -> ArchSelectionModel {
    match flashmla_archs {
        Some(archs) => listed_selection(archs@),
        None => capability_selection(compute_cap),
    }
}

/// The selection that follows from a parsed architecture.
fn selection(r: Result<Arch, String>) -> (s: ArchSelection)
    ensures
        s@ == selection_of(outcome(r)),
{
    match r {
        Ok(arch) => ArchSelection::Target(arch),
        Err(message) => ArchSelection::Unsupported(message),
    }
}

/// Selects the target architecture from the values of `FLASHMLA_ARCHS` and `CUDA_COMPUTE_CAP`. The
/// first of them that is set decides; without either the visible GPUs are asked.
pub fn selected_arch(flashmla_archs: Option<String>, compute_cap: EnvText) -> (s: ArchSelection)
    ensures
        s@ == selection_by(flashmla_archs, compute_cap),
{
    if let Some(archs) = flashmla_archs {
        let list = entry_list(archs.as_str(), ',');
        assert(texts(list@).len() == list@.len());
        if list.len() != 1 {
            return ArchSelection::Abort(
                labelled("FLASHMLA_ARCHS=", quoted(archs.as_str()).as_str()).concat(
                    " is not supported yet. Use exactly one of sm90a or sm100f.",
                ),
            );
        }
        assert(texts(list@)[0] == list@[0]@);
        return selection(parse_arch(list[0].as_str(), "FLASHMLA_ARCHS"));
    }
    match compute_cap {
        EnvText::Unset => ArchSelection::Detect,
        EnvText::NotUnicode => ArchSelection::Abort(
            String::from_str("CUDA_COMPUTE_CAP is not valid Unicode"),
        ),
        EnvText::Text(value) => {
            let value = trim(value.as_str());
            if value.as_str().is_empty() {
                ArchSelection::Abort(String::from_str("CUDA_COMPUTE_CAP is set but empty"))
            } else {
                selection(parse_arch(value.as_str(), "CUDA_COMPUTE_CAP"))
            }
        },
    }
}

/// Architecture names are compared part by part: underscores and dots do not count, and capital
/// letters count as small ones. White space around a name does not count.
pub proof fn names_are_compared_loosely(left: Seq<char>, right: Seq<char>, c: char)
    ensures
        plain(left + right) == plain(left) + plain(right),
        c == '_' || c == '.' ==> plain(seq![c]) == Seq::<char>::empty(),
        c != '_' && c != '.' && 65 <= c as u32 <= 90 ==> plain(seq![c]) == seq![
            (c as u32 + 32) as char,
        ],
        c != '_' && c != '.' && !(65 <= c as u32 <= 90) ==> plain(seq![c]) == seq![c],
        normalized(left) == plain(trimmed(left)),
        named_arch(trimmed(left)) == named_arch(left),
    decreases right.len(),
{
    lemma_plain_push(Seq::empty(), c);
    assert(seq![c] == Seq::<char>::empty().push(c));
    trimming_cuts_white_space(left);
    if right.len() > 0 {
        names_are_compared_loosely(left, right.drop_last(), c);
        lemma_plain_push(left + right.drop_last(), right.last());
        lemma_plain_push(right.drop_last(), right.last());
        assert(left + right == (left + right.drop_last()).push(right.last()));
        assert(right == right.drop_last().push(right.last()));
        assert(plain(left + right) == plain(left) + plain(right));
    } else {
        assert(left + right == left);
        assert(plain(left) + plain(right) == plain(left));
    }
}

/// One more character of a name.
proof fn lemma_plain_push(s: Seq<char>, c: char)
    ensures
        c == '_' || c == '.' ==> plain(s.push(c)) == plain(s),
        c != '_' && c != '.' ==> plain(s.push(c)) == plain(s).push(lower(c)),
{
    assert(s.push(c).drop_last() == s);
    assert(s.push(c).last() == c);
}

/// The numbers of the architectures in decimal.
proof fn lemma_numbers()
    ensures
        decimal(90) == "90"@,
        decimal(100) == "100"@,
        decimal(120) == "120"@,
        decimal(121) == "121"@,
{
    reveal_with_fuel(decimal, 4);
    reveal_strlit("90");
    reveal_strlit("100");
    reveal_strlit("120");
    reveal_strlit("121");
    assert(decimal(90) == "90"@);
    assert(decimal(100) == "100"@);
    assert(decimal(120) == "120"@);
    assert(decimal(121) == "121"@);
}

/// A value names an architecture if and only if, compared loosely, it is the two numbers of its
/// compute capability run together, alone or after `sm`, or that number and the letter of the
/// architecture, alone or after `sm` or `compute`.
pub proof fn spellings_of_the_architectures(value: Seq<char>, arch: Arch, major: u32, minor: u32)
    requires
        arch_of(major, minor) == Some(arch),
    ensures
        ({
            let number = decimal((10 * major + minor) as nat);
            let lettered = number.push(
                match arch {
                    Arch::Sm90a => 'a',
                    Arch::Sm100f => 'f',
                },
            );
            named_arch(value) == Some(arch) <==> {
                let n = plain(trimmed(value));
                ||| n == number
                ||| n == seq!['s', 'm'] + number
                ||| n == lettered
                ||| n == seq!['s', 'm'] + lettered
                ||| n == seq!['c', 'o', 'm', 'p', 'u', 't', 'e'] + lettered
            }
        }),
        names_sm120(value) <==> {
            let n = plain(trimmed(value));
            ||| n == decimal(120) || n == seq!['s', 'm'] + decimal(120)
            ||| n == decimal(121) || n == seq!['s', 'm'] + decimal(121)
        },
{
    lemma_numbers();
    let sm = seq!['s', 'm'];
    reveal_strlit("90");
    reveal_strlit("90a");
    reveal_strlit("sm90");
    reveal_strlit("sm90a");
    reveal_strlit("compute90a");
    reveal_strlit("100");
    reveal_strlit("100f");
    reveal_strlit("sm100");
    reveal_strlit("sm100f");
    reveal_strlit("compute100f");
    reveal_strlit("120");
    reveal_strlit("121");
    reveal_strlit("sm120");
    reveal_strlit("sm121");
    assert("90"@.push('a') == "90a"@);
    assert(sm + "90"@ == "sm90"@);
    assert(sm + "90a"@ == "sm90a"@);
    assert(seq!['c', 'o', 'm', 'p', 'u', 't', 'e'] + "90a"@ == "compute90a"@);
    assert("100"@.push('f') == "100f"@);
    assert(sm + "100"@ == "sm100"@);
    assert(sm + "100f"@ == "sm100f"@);
    assert(seq!['c', 'o', 'm', 'p', 'u', 't', 'e'] + "100f"@ == "compute100f"@);
    assert(sm + "120"@ == "sm120"@);
    assert(sm + "121"@ == "sm121"@);
    assert("90"@.len() == 2 && "90a"@.len() == 3 && "sm90"@.len() == 4 && "sm90a"@.len() == 5
        && "compute90a"@.len() == 10);
    assert("100"@.len() == 3 && "100f"@.len() == 4 && "sm100"@.len() == 5 && "sm100f"@.len() == 6
        && "compute100f"@.len() == 11);
    assert("90a"@[0] == '9' && "100"@[0] == '1');
    assert("sm90"@[0] == 's' && "100f"@[0] == '1');
    assert("sm90a"@[2] == '9' && "sm100"@[2] == '1');
}

/// The name of an architecture for the compiler, with its underscore or without, and its compute
/// capability with a dot all name the architecture.
pub proof fn architectures_have_their_names(arch: Arch, major: u32, minor: u32)
    requires
        arch_of(major, minor) == Some(arch),
    ensures
        named_arch(arch.nvcc_arch_spec()) == Some(arch),
        named_arch(plain(arch.nvcc_arch_spec())) == Some(arch),
        named_arch(decimal(major as nat).push('.') + decimal(minor as nat)) == Some(arch),
{
    reveal_with_fuel(decimal, 3);
    let none = Seq::<char>::empty();
    match arch {
        Arch::Sm90a => {
            reveal_strlit("sm_90a");
            reveal_strlit("sm90a");
            reveal_strlit("90");
            assert("sm_90a"@ == none.push('s').push('m').push('_').push('9').push('0').push('a'));
            assert("sm90a"@ == none.push('s').push('m').push('9').push('0').push('a'));
            lemma_plain_push(none, 's');
            lemma_plain_push(none.push('s'), 'm');
            lemma_plain_push(none.push('s').push('m'), '_');
            lemma_plain_push(none.push('s').push('m').push('_'), '9');
            lemma_plain_push(none.push('s').push('m').push('_').push('9'), '0');
            lemma_plain_push(none.push('s').push('m').push('_').push('9').push('0'), 'a');
            lemma_plain_push(none.push('s').push('m'), '9');
            lemma_plain_push(none.push('s').push('m').push('9'), '0');
            lemma_plain_push(none.push('s').push('m').push('9').push('0'), 'a');
            let capability = decimal(major as nat).push('.') + decimal(minor as nat);
            assert(capability == none.push('9').push('.').push('0'));
            lemma_plain_push(none, '9');
            lemma_plain_push(none.push('9'), '.');
            lemma_plain_push(none.push('9').push('.'), '0');
            assert("90"@ == none.push('9').push('0'));
            assert(trimmed(capability) == capability);
            assert(trimmed("sm_90a"@) == "sm_90a"@);
            assert(trimmed("sm90a"@) == "sm90a"@);
        },
        Arch::Sm100f => {
            reveal_strlit("sm_100f");
            reveal_strlit("sm100f");
            reveal_strlit("100");
            assert("sm_100f"@ == none.push('s').push('m').push('_').push('1').push('0').push(
                '0',
            ).push('f'));
            assert("sm100f"@ == none.push('s').push('m').push('1').push('0').push('0').push('f'));
            lemma_plain_push(none, 's');
            lemma_plain_push(none.push('s'), 'm');
            lemma_plain_push(none.push('s').push('m'), '_');
            lemma_plain_push(none.push('s').push('m').push('_'), '1');
            lemma_plain_push(none.push('s').push('m').push('_').push('1'), '0');
            lemma_plain_push(none.push('s').push('m').push('_').push('1').push('0'), '0');
            lemma_plain_push(none.push('s').push('m').push('_').push('1').push('0').push('0'), 'f');
            lemma_plain_push(none.push('s').push('m'), '1');
            lemma_plain_push(none.push('s').push('m').push('1'), '0');
            lemma_plain_push(none.push('s').push('m').push('1').push('0'), '0');
            lemma_plain_push(none.push('s').push('m').push('1').push('0').push('0'), 'f');
            let capability = decimal(major as nat).push('.') + decimal(minor as nat);
            assert(capability == none.push('1').push('0').push('.').push('0'));
            lemma_plain_push(none, '1');
            lemma_plain_push(none.push('1'), '0');
            lemma_plain_push(none.push('1').push('0'), '.');
            lemma_plain_push(none.push('1').push('0').push('.'), '0');
            assert("100"@ == none.push('1').push('0').push('0'));
            assert(trimmed(capability) == capability);
            assert(trimmed("sm_100f"@) == "sm_100f"@);
            assert(trimmed("sm100f"@) == "sm100f"@);
            reveal_strlit("90");
            reveal_strlit("90a");
            reveal_strlit("sm90");
            reveal_strlit("sm90a");
            reveal_strlit("compute90a");
            assert("100"@.len() == 3 && "90a"@[0] == '9' && "100"@[0] == '1');
            assert("sm100f"@.len() == 6);
        },
    }
}

/// A value is refused if and only if it names no architecture. The message gives where the value
/// comes from and the value in quotes, and says of SM120 and SM121 that they are left out.
pub proof fn refused_names_are_quoted(value: Seq<char>, source: Seq<char>)
    ensures
        match parsed_arch(value, source) {
            Ok(arch) => named_arch(value) == Some(arch),
            Err(message) => {
                &&& named_arch(value) is None
                &&& names_sm120(value) ==> message == source + "="@ + quoted_text(value)
                    + " is unsupported by upstream FlashMLA sparse MLA"@
                &&& !names_sm120(value) ==> message == source + "="@ + quoted_text(value)
                    + " is unsupported. Use CUDA_COMPUTE_CAP=90/100 or FLASHMLA_ARCHS=sm90a/sm100f"@
            },
        },
{
}

/// Where the GPUs have no common architecture, the message is about the first of them that does not
/// have the architecture of the first one: it is refused by its name, or both are named.
pub proof fn detection_stops_at_the_first_difference(
    capabilities: Seq<Seq<char>>,
    selected: Arch,
    k: int,
)
    requires
        0 < k < capabilities.len(),
        forall|i: int| 0 <= i < k ==> named_arch(#[trigger] capabilities[i]) == Some(selected),
        named_arch(capabilities[k]) != Some(selected),
    ensures
        named_arch(capabilities[k]) is None ==> detected_arch(capabilities) == parsed_arch(
            capabilities[k],
            "nvidia-smi compute capability"@,
        ),
        named_arch(capabilities[k]) is Some ==> detected_arch(capabilities) == Err::<
            Arch,
            Seq<char>,
        >(
            "nvidia-smi reported mixed GPU architectures ("@ + capabilities[0] + " and "@
                + capabilities[k]
                + "), but flashmla-rs builds exactly one architecture. Set CUDA_COMPUTE_CAP=90/100 or FLASHMLA_ARCHS=sm90a/sm100f explicitly"@,
        ),
{
    assert(named_arch(capabilities[0]) == Some(selected));
    lemma_common_arch_skips(capabilities, selected, 1, k);
}

/// Capabilities of the selected architecture are passed over.
proof fn lemma_common_arch_skips(capabilities: Seq<Seq<char>>, selected: Arch, i: int, k: int)
    requires
        0 <= i <= k < capabilities.len(),
        forall|j: int| i <= j < k ==> named_arch(#[trigger] capabilities[j]) == Some(selected),
    ensures
        common_arch(capabilities, selected, i) == common_arch(capabilities, selected, k),
    decreases k - i,
{
    if i < k {
        assert(named_arch(capabilities[i]) == Some(selected));
        lemma_common_arch_skips(capabilities, selected, i + 1, k);
    }
}

/// Without visible GPUs, and where the first of them has no supported architecture, nothing is
/// detected.
pub proof fn detection_needs_a_first_gpu(capabilities: Seq<Seq<char>>)
    ensures
        capabilities.len() == 0 ==> detected_arch(capabilities) == Err::<Arch, Seq<char>>(
            "nvidia-smi reported no visible GPUs during CUDA architecture auto-detection. Set CUDA_COMPUTE_CAP=90/100 or FLASHMLA_ARCHS=sm90a/sm100f explicitly"@,
        ),
        capabilities.len() > 0 && named_arch(capabilities[0]) is None ==> detected_arch(
            capabilities,
        ) == parsed_arch(capabilities[0], "nvidia-smi compute capability"@),
{
}

/// A list of architectures decides alone, whatever the compute capability: it has to have one entry,
/// which has to name an architecture.
pub proof fn a_list_decides_alone(archs: String, compute_cap: EnvText)
    ensures
        ({
            let list = entries(archs@, ',');
            match selection_by(Some(archs), compute_cap) {
                ArchSelectionModel::Target(arch) => list.len() == 1 && named_arch(list[0]) == Some(
                    arch,
                ),
                ArchSelectionModel::Unsupported(message) => list.len() == 1 && named_arch(
                    list[0],
                ) is None && parsed_arch(list[0], "FLASHMLA_ARCHS"@) == Err::<Arch, Seq<char>>(
                    message,
                ),
                ArchSelectionModel::Abort(message) => list.len() != 1 && message
                    == "FLASHMLA_ARCHS="@ + quoted_text(archs@)
                    + " is not supported yet. Use exactly one of sm90a or sm100f."@,
                ArchSelectionModel::Detect => false,
            }
        }),
{
}

/// Without a list, a compute capability decides: it has to be Unicode and more than white space, and
/// to name an architecture. Without either the GPUs are asked.
pub proof fn a_capability_decides_without_a_list(compute_cap: EnvText)
    ensures
        match selection_by(None, compute_cap) {
            ArchSelectionModel::Target(arch) => compute_cap matches EnvText::Text(value)
                && named_arch(value@) == Some(arch) && trimmed(value@).len() > 0,
            ArchSelectionModel::Unsupported(message) => compute_cap matches EnvText::Text(value)
                && trimmed(value@).len() > 0 && named_arch(value@) is None && parsed_arch(
                trimmed(value@),
                "CUDA_COMPUTE_CAP"@,
            ) == Err::<Arch, Seq<char>>(message),
            ArchSelectionModel::Abort(message) => match compute_cap {
                EnvText::Unset => false,
                EnvText::NotUnicode => message == "CUDA_COMPUTE_CAP is not valid Unicode"@,
                EnvText::Text(value) => trimmed(value@).len() == 0 && message
                    == "CUDA_COMPUTE_CAP is set but empty"@,
            },
            ArchSelectionModel::Detect => compute_cap is Unset,
        },
{
    if let EnvText::Text(value) = compute_cap {
        trimming_cuts_white_space(value@);
    }
}

/// A selection is what it says: an architecture, a reason why there is none, the wish to ask the
/// GPUs, or a reason to stop. So is the outcome of parsing.
pub proof fn selections_are_what_they_say(s: ArchSelection, r: Result<Arch, String>)
    ensures
        s matches ArchSelection::Target(arch) ==> s@ == ArchSelectionModel::Target(arch),
        s matches ArchSelection::Unsupported(m) ==> s@ == ArchSelectionModel::Unsupported(m@),
        s is Detect ==> s@ is Detect,
        s matches ArchSelection::Abort(m) ==> s@ == ArchSelectionModel::Abort(m@),
        r matches Ok(arch) ==> outcome(r) == Ok::<Arch, Seq<char>>(arch),
        r matches Err(m) ==> outcome(r) == Err::<Arch, Seq<char>>(m@),
{
}

} // verus!
