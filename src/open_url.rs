use vstd::prelude::*;

verus! {

/// The PDB slots of the desktop application: the file shown, and the one it
/// is compared with.
#[derive(Clone, Copy, PartialEq, Eq, Debug, Structural)]
pub enum ResymPDBSlots {
    Main,
    Diff,
}

/// The number under which the worker knows a PDB slot.
pub type PDBSlot = usize;

pub open spec fn slot_number(slot: ResymPDBSlots) -> PDBSlot {
    match slot {
        ResymPDBSlots::Main => 0,
        ResymPDBSlots::Diff => 1,
    }
}

impl ResymPDBSlots {
    /// The number under which the worker knows this slot.
    pub fn number(self) -> (r: PDBSlot)
        ensures
            r == slot_number(self),
    {
        match self {
            ResymPDBSlots::Main => 0,
            ResymPDBSlots::Diff => 1,
        }
    }
}

/// A request to the background worker.
#[derive(Clone, PartialEq, Eq, Debug)]
pub enum BackendCommand {
    /// Load the PDB file found at a URL into a slot.
    LoadPDBFromURL(PDBSlot, String),
}

/// A button of the dialog that asks for a URL.
#[derive(Clone, Copy, PartialEq, Eq, Debug, Structural)]
pub enum OpenURLButton {
    Cancel,
    Open,
}

/// The state of the dialog that asks for the URL of a PDB file to open.
pub struct OpenURLComponent {
    /// The URL typed so far.
    pub url_text: String,
    /// The slot the PDB file will be loaded into; `None` while the dialog is
    /// closed.
    pub pdb_slot: Option<ResymPDBSlots>,
}

impl OpenURLComponent {
    /// A closed dialog with no URL typed.
    pub fn new() -> (r: Self)
        ensures
            r.url_text@ == Seq::<char>::empty(),
            r.pdb_slot is None,
    {
        Self { url_text: String::new(), pdb_slot: None }
    }

    /// Opens the dialog for loading into `pdb_slot`.
    pub fn open(&mut self, pdb_slot: ResymPDBSlots)
        ensures
            final(self).pdb_slot == Some(pdb_slot),
            final(self).url_text == old(self).url_text,
    {
        self.pdb_slot = Some(pdb_slot);
    }

    /// Closes the dialog and forgets the URL typed.
    pub fn close(&mut self)
        ensures
            final(self).pdb_slot is None,
            final(self).url_text@ == Seq::<char>::empty(),
    {
        self.pdb_slot = None;
        self.url_text = String::new();
    }

    /// The request that loads the PDB file at `url` into `pdb_slot`.
    pub fn start_open_pdb_from_url(&self, pdb_slot: ResymPDBSlots, url: String) -> (r:
        BackendCommand)
        ensures
            r == BackendCommand::LoadPDBFromURL(slot_number(pdb_slot), url),
    {
        BackendCommand::LoadPDBFromURL(pdb_slot.number(), url)
    }

    /// Handles a frame of the dialog in which `clicked` was pressed, if any.
    /// While the dialog is open, Cancel closes it, and Open closes it and
    /// gives the request that loads the URL typed; a closed dialog ignores
    /// buttons.
    pub fn update(&mut self, clicked: Option<OpenURLButton>) -> (r: Option<BackendCommand>)
        ensures
            match (old(self).pdb_slot, clicked) {
                (Some(slot), Some(OpenURLButton::Open)) => {
                    &&& r == Some(BackendCommand::LoadPDBFromURL(slot_number(slot), old(self).url_text))
                    &&& final(self).pdb_slot is None
                    &&& final(self).url_text@ == Seq::<char>::empty()
                },
                (Some(_), Some(OpenURLButton::Cancel)) => {
                    &&& r is None
                    &&& final(self).pdb_slot is None
                    &&& final(self).url_text@ == Seq::<char>::empty()
                },
                _ => r is None && final(self).pdb_slot == old(self).pdb_slot && final(self).url_text
                    == old(self).url_text,
            },
    {
        match (self.pdb_slot, clicked) {
            (Some(slot), Some(OpenURLButton::Open)) => {
                let url = self.url_text.clone();
                let command = self.start_open_pdb_from_url(slot, url);
                self.close();
                Some(command)
            },
            (Some(_), Some(OpenURLButton::Cancel)) => {
                self.close();
                None
            },
            _ => None,
        }
    }
}

} // verus!
