use vstd::prelude::*;

verus! {

/// One interactive region of the login screen.
#[derive(Debug, Default, Clone, Copy, PartialEq, Eq, Hash, Structural)]
pub enum FocusArea {
    #[default]
    ServerInput,
    UsernameInput,
    PasswordInput,
    LoginBt,
}

impl FocusArea {
    /// The number under which the text of this area is stored.
    pub(crate) open spec fn spec_code(self) -> u8 {
        match self {
            FocusArea::ServerInput => 0,
            FocusArea::UsernameInput => 1,
            FocusArea::PasswordInput => 2,
            FocusArea::LoginBt => 3,
        }
    }

    #[verifier::when_used_as_spec(spec_code)]
    pub(crate) fn code(self) -> (c: u8)
        ensures
            c == self.spec_code(),
    {
        match self {
            FocusArea::ServerInput => 0,
            FocusArea::UsernameInput => 1,
            FocusArea::PasswordInput => 2,
            FocusArea::LoginBt => 3,
        }
    }

    /// The areas in the order in which the login screen lays them out.
    pub open spec fn spec_all() -> Seq<FocusArea> {
        seq![
            FocusArea::ServerInput,
            FocusArea::UsernameInput,
            FocusArea::PasswordInput,
            FocusArea::LoginBt,
        ]
    }

    pub fn all() -> (areas: Vec<FocusArea>)
        ensures
            areas@ == Self::spec_all(),
    {
        let mut areas: Vec<FocusArea> = Vec::new();
        areas.push(FocusArea::ServerInput);
        areas.push(FocusArea::UsernameInput);
        areas.push(FocusArea::PasswordInput);
        areas.push(FocusArea::LoginBt);
        assert(areas@ =~= Self::spec_all());
        areas
    }
}

} // verus!
