use vstd::prelude::*;

verus! {

/// The command classes understood by the application.
#[derive(Clone, Copy, Debug, PartialEq, Eq, Structural)]
pub enum Ins {
    GetVersion,
    GetPubkey,
    SignHash,
    PedersenHash,
    SignTx,
}

/// The instruction byte that selects each command class.
pub open spec fn ins_of_byte(b: u8) -> Option<Ins> {
    if b == 0 {
        Some(Ins::GetVersion)
    } else if b == 1 {
        Some(Ins::GetPubkey)
    } else if b == 2 {
        Some(Ins::SignHash)
    } else if b == 3 {
        Some(Ins::SignTx)
    } else if b == 4 {
        Some(Ins::PedersenHash)
    } else {
        None
    }
}

impl TryFrom<u8> for Ins {
    type Error = ();

    fn try_from(ins: u8) -> (r: Result<Ins, ()>) {
        match ins {
            0 => Ok(Ins::GetVersion),
            1 => Ok(Ins::GetPubkey),
            2 => Ok(Ins::SignHash),
            3 => Ok(Ins::SignTx),
            4 => Ok(Ins::PedersenHash),
            _ => Err(()),
        }
    }
}

impl vstd::std_specs::convert::TryFromSpecImpl<u8> for Ins {
    open spec fn obeys_try_from_spec() -> bool {
        true
    }

    open spec fn try_from_spec(v: u8) -> Result<Ins, ()> {
        match ins_of_byte(v) {
            Some(i) => Ok(i),
            None => Err(()),
        }
    }
}

} // verus!
