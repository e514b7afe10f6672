//! Running system tools from the native build and from inside Flatpak, where
//! they run on the host through `flatpak-spawn --host`.

use vstd::prelude::*;

verus! {

broadcast use vstd::string::group_string_axioms;

/// Inside Flatpak when `/.flatpak-info` exists or `FLATPAK_ID` is set.
pub fn is_flatpak(has_flatpak_info: bool, flatpak_id_set: bool) -> (b: bool)
    ensures
        b == (has_flatpak_info || flatpak_id_set),
{
    has_flatpak_info || flatpak_id_set
}

/// The program to start for `program`, and the arguments that come before
/// the tool's own: inside Flatpak `flatpak-spawn --host <program>`, else the
/// program itself.
pub fn host_command(program: &str, in_flatpak: bool) -> (r: (String, Vec<String>))
    ensures
        in_flatpak ==> r.0@ == "flatpak-spawn"@ && r.1.deep_view() == seq!["--host"@, program@],
        !in_flatpak ==> r.0@ == program@ && r.1.deep_view() == Seq::<Seq<char>>::empty(),
{
    if in_flatpak {
        let args = vec!["--host".to_string(), program.to_string()];
        assert(args.deep_view() =~= seq!["--host"@, program@]);
        ("flatpak-spawn".to_string(), args)
    } else {
        let args: Vec<String> = Vec::new();
        assert(args.deep_view() =~= Seq::<Seq<char>>::empty());
        (program.to_string(), args)
    }
}

} // verus!
