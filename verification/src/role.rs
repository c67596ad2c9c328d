//! The closed set of roles an account can hold.

use vstd::prelude::*;

verus! {

/// What an account is allowed to be. No other role exists.
#[derive(Clone, Copy, Debug, PartialEq, Eq, Structural)]
pub enum Role {
    Admin,
    Teacher,
    Student,
}

/// The name under which a role is stored and carried in tokens.
pub open spec fn role_name(role: Role) -> Seq<char> {
    match role {
        Role::Admin => "admin"@,
        Role::Teacher => "teacher"@,
        Role::Student => "student"@,
    }
}

/// The role that a name stands for, if it stands for one.
pub open spec fn role_named(name: Seq<char>) -> Option<Role> {
    if name == "admin"@ {
        Some(Role::Admin)
    } else if name == "teacher"@ {
        Some(Role::Teacher)
    } else if name == "student"@ {
        Some(Role::Student)
    } else {
        None
    }
}

impl Role {
    /// Reads a role from its name; any other text is no role.
    pub fn parse(name: &str) -> (role: Option<Role>)
        ensures
            role == role_named(name@),
    {
        if name.eq("admin") {
            Some(Role::Admin)
        } else if name.eq("teacher") {
            Some(Role::Teacher)
        } else if name.eq("student") {
            Some(Role::Student)
        } else {
            None
        }
    }

    /// The name of this role.
    pub fn as_str(&self) -> (name: &'static str)
        ensures
            name@ == role_name(*self),
    {
        match self {
            Role::Admin => "admin",
            Role::Teacher => "teacher",
            Role::Student => "student",
        }
    }
}

/// The three role names are pairwise different.
pub proof fn role_names_differ()
    ensures
        "admin"@ != "teacher"@,
        "admin"@ != "student"@,
        "teacher"@ != "student"@,
{
    reveal_strlit("admin");
    reveal_strlit("teacher");
    reveal_strlit("student");
    assert("admin"@.len() == 5);
    assert("teacher"@.len() == 7);
    assert("student"@[0] == 's');
    assert("teacher"@[0] == 't');
}

/// Reading a role's name gives the role back.
pub proof fn role_name_round_trip(role: Role)
    ensures
        role_named(role_name(role)) == Some(role),
{
    role_names_differ();
}

/// A name that stands for a role is that role's name.
pub proof fn role_named_is_name(name: Seq<char>, role: Role)
    requires
        role_named(name) == Some(role),
    ensures
        role_name(role) == name,
{
}

} // verus!
