use vstd::prelude::*;

verus! {

/// The tools tried, in order, to run the VPN client with elevated
/// privileges: the user's own command first when it can be found.
pub fn privilege_tools(custom: Option<String>, custom_found: bool) -> (r: Vec<String>)
    ensures
        ({
            let usual = seq!["doas"@, "sudo"@, "pkexec"@];
            let names = r@.map_values(|s: String| s@);
            match custom {
                Some(c) => if custom_found {
                    names == seq![c@] + usual
                } else {
                    names == usual
                },
                None => names == usual,
            }
        }),
{
    let mut r: Vec<String> = Vec::new();
    if let Some(c) = custom {
        if custom_found {
            r.push(c);
        }
    }
    let ghost before = r@;
    r.push("doas".to_owned());
    r.push("sudo".to_owned());
    r.push("pkexec".to_owned());
    proof {
        let usual = seq!["doas"@, "sudo"@, "pkexec"@];
        assert(r@.map_values(|s: String| s@) =~= before.map_values(|s: String| s@) + usual);
    }
    r
}

/// The index of the first tool that was found, if any was.
pub fn first_available(found: &Vec<bool>) -> (r: Option<usize>)
    ensures
        match r {
            Some(i) => i < found@.len() && found@[i as int] && forall|j: int|
                0 <= j < i ==> !found@[j],
            None => forall|j: int| 0 <= j < found@.len() ==> !found@[j],
        },
{
    let mut i: usize = 0;
    while i < found.len()
        invariant
            i <= found@.len(),
            forall|j: int| 0 <= j < i ==> !found@[j],
        decreases found@.len() - i,
    {
        if found[i] {
            return Some(i);
        }
        i = i + 1;
    }
    None
}

/// The VPN client's command line: its name, then its arguments, which pass
/// the session cookie for `server`.
pub fn openconnect_command(cookie: &str, server: &str) -> (r: Vec<String>)
    ensures
        r@.map_values(|s: String| s@) == seq![
            "openconnect"@,
            "--protocol"@,
            "nc"@,
            "-C"@,
            "DSID="@ + cookie@,
            server@,
        ],
{
    let mut cookie_arg = "DSID=".to_owned();
    cookie_arg.append(cookie);
    let mut r: Vec<String> = Vec::new();
    r.push("openconnect".to_owned());
    r.push("--protocol".to_owned());
    r.push("nc".to_owned());
    r.push("-C".to_owned());
    r.push(cookie_arg);
    r.push(server.to_owned());
    proof {
        assert(r@.map_values(|s: String| s@) =~= seq![
            "openconnect"@,
            "--protocol"@,
            "nc"@,
            "-C"@,
            "DSID="@ + cookie@,
            server@,
        ]);
    }
    r
}

} // verus!
