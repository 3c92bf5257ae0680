use vstd::prelude::*;

verus! {

/// The two modes: in `NORMAL` keys drive the pointer, in `INSERT` they pass
/// through to applications.
#[derive(Debug, Copy, Clone, PartialEq, Eq, Structural)]
pub enum Mode {
    INSERT,
    NORMAL,
}

/// The text that the durable flag holds for a mode.
pub open spec fn flag_text(m: Mode) -> Seq<u8> {
    match m {
        Mode::INSERT => seq![73u8, 78u8, 83u8, 69u8, 82u8, 84u8],
        Mode::NORMAL => seq![78u8, 79u8, 82u8, 77u8, 65u8, 76u8],
    }
}

/// The mode that a flag's content stands for: `INSERT` for exactly the text of
/// `INSERT`, `NORMAL` for anything else.
pub open spec fn mode_of_content(content: Seq<u8>) -> Mode {
    if content == flag_text(Mode::INSERT) {
        Mode::INSERT
    } else {
        Mode::NORMAL
    }
}

/// The mode that a flag stands for; an absent flag stands for `NORMAL`.
pub open spec fn mode_of_flag(flag: Option<Seq<u8>>) -> Mode {
    match flag {
        Some(content) => mode_of_content(content),
        None => Mode::NORMAL,
    }
}

impl Mode {
    /// The bytes to store in the durable flag for this mode.
    pub fn flag_bytes(&self) -> (r: Vec<u8>)
        ensures
            r@ == flag_text(*self),
    {
        match self {
            Mode::INSERT => vec![73u8, 78u8, 83u8, 69u8, 82u8, 84u8],
            Mode::NORMAL => vec![78u8, 79u8, 82u8, 77u8, 65u8, 76u8],
        }
    }

    /// The mode that the content of a present flag stands for.
    pub fn from_flag_content(content: &[u8]) -> (r: Mode)
        ensures
            r == mode_of_content(content@),
    {
        let insert = Mode::INSERT.flag_bytes();
        if content.len() != insert.len() {
            return Mode::NORMAL;
        }
        let mut i: usize = 0;
        while i < content.len()
            invariant
                content@.len() == insert@.len(),
                insert@ == flag_text(Mode::INSERT),
                i <= content@.len(),
                forall|j: int| 0 <= j < i ==> content@[j] == insert@[j],
            decreases content@.len() - i,
        {
            if content[i] != insert[i] {
                return Mode::NORMAL;
            }
            i = i + 1;
        }
        assert(content@ =~= flag_text(Mode::INSERT));
        Mode::INSERT
    }
}

/// The durable mode flag that cooperating processes share, as content: absent,
/// or the bytes it holds.
pub struct ModeStore {
    flag: Option<Vec<u8>>,
}

impl View for ModeStore {
    type V = Option<Seq<u8>>;

    closed spec fn view(&self) -> Option<Seq<u8>> {
        match self.flag {
            Some(v) => Some(v@),
            None => None,
        }
    }
}

impl ModeStore {
    /// A store whose flag does not exist yet.
    pub fn new() -> (r: ModeStore)
        ensures
            r@ == None::<Seq<u8>>,
    {
        ModeStore { flag: None }
    }

    /// A store over a flag as it was read: `None` where it does not exist.
    pub fn with_flag(flag: Option<Vec<u8>>) -> (r: ModeStore)
        ensures
            r@ == (match flag {
                Some(v) => Some(v@),
                None => None,
            }),
    {
        ModeStore { flag }
    }

    /// The flag's content, `None` where it does not exist.
    pub fn flag(&self) -> (r: Option<&Vec<u8>>)
        ensures
            match r {
                Some(v) => self@ == Some(v@),
                None => self@ == None::<Seq<u8>>,
            },
    {
        match &self.flag {
            Some(v) => Some(v),
            None => None,
        }
    }

    /// Reads the mode. An absent flag is first created holding `NORMAL`.
    pub fn current_mode(&mut self) -> (r: Mode)
        ensures
            r == mode_of_flag(old(self)@),
            final(self)@ == (match old(self)@ {
                Some(c) => Some(c),
                None => Some(flag_text(Mode::NORMAL)),
            }),
    {
        match &self.flag {
            Some(content) => Mode::from_flag_content(content.as_slice()),
            None => {
                self.flag = Some(Mode::NORMAL.flag_bytes());
                Mode::NORMAL
            },
        }
    }

    /// Stores `mode`, replacing what the flag held. The new content depends on
    /// `mode` alone, so storing the same mode again changes nothing.
    pub fn set_mode(&mut self, mode: Mode)
        ensures
            final(self)@ == Some(flag_text(mode)),
    {
        self.flag = Some(mode.flag_bytes());
    }
}

/// An absent flag reads as `NORMAL`, and a flag that holds the text of a mode
/// reads as that mode.
pub proof fn lemma_mode_round_trip(m: Mode)
    ensures
        mode_of_flag(None) == Mode::NORMAL,
        mode_of_flag(Some(flag_text(m))) == m,
{
    if m == Mode::NORMAL {
        assert(flag_text(Mode::NORMAL)[0] != flag_text(Mode::INSERT)[0]);
    }
}

} // verus!
