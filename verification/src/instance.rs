//! One plugin instance: its durable state, its stored form, and its answers
//! to the host's commands.
//!
//! The stored form is a version number and a payload. Version 1 is the only
//! one defined; its payload is the `bincode` encoding of the instance id, the
//! script source, the environment path, the last known path of the script and
//! the active job, in this order.

use crate::command::{plan_stateless, stateless_plan, Command, InstanceAction};
use crate::error::Error;
use crate::job::JobId;
use vstd::prelude::*;

verus! {

#[verifier::external_type_specification]
#[verifier::external_body]
pub struct ExErrorKind(bincode::ErrorKind);

/// The characters of an optional string.
pub open spec fn text_of(value: Option<String>) -> Option<Seq<char>> {
    match value {
        Some(text) => Some(text@),
        None => None,
    }
}

/// The bytes that `bincode::serialize` gives for the fields of an instance,
/// in the order instance id, script source, environment path, last known
/// path, active job; `None` where it reports an error. The id is encoded as
/// a number of 64 bits, whatever the width of `usize`.
pub uninterp spec fn bincode_encoding(
    id: u64,
    src: Option<Seq<char>>,
    venv_path: Option<Seq<char>>,
    last_known_path: Option<Seq<char>>,
    active_job: Option<u64>,
) -> Option<Seq<u8>>;

/// The fields that `bincode::deserialize` reads from the bytes, in the same
/// order; `None` where it reports an error.
pub uninterp spec fn bincode_decoding(bytes: Seq<u8>) -> Option<
    (u64, Option<Seq<char>>, Option<Seq<char>>, Option<Seq<char>>, Option<u64>),
>;

/// Trusted: `bincode::serialize` on the tuple of the five fields. Its result
/// depends on the fields alone, and what it encoded, `bincode::deserialize`
/// decodes to the same fields.
#[verifier::external_body]
fn encode_fields(
    id: u64,
    src: &Option<String>,
    venv_path: &Option<String>,
    last_known_path: &Option<String>,
    active_job: Option<u64>,
) -> (encoded: Result<Vec<u8>, Box<bincode::ErrorKind>>)
    ensures
        encoded is Ok <==> bincode_encoding(
            id,
            text_of(*src),
            text_of(*venv_path),
            text_of(*last_known_path),
            active_job,
        ) is Some,
        encoded matches Ok(bytes) ==> bincode_encoding(
            id,
            text_of(*src),
            text_of(*venv_path),
            text_of(*last_known_path),
            active_job,
        ) == Some(bytes@),
        encoded matches Ok(bytes) ==> bincode_decoding(bytes@) == Some(
            (id, text_of(*src), text_of(*venv_path), text_of(*last_known_path), active_job),
        ),
{
    bincode::serialize(&(id, src, venv_path, last_known_path, active_job))
}

/// Trusted: `bincode::deserialize` of the tuple of the five fields. Its
/// result depends on the bytes alone.
#[verifier::external_body]
fn decode_fields(bytes: &[u8]) -> (decoded: Result<
    (u64, Option<String>, Option<String>, Option<String>, Option<u64>),
    Box<bincode::ErrorKind>,
>)
    ensures
        decoded is Ok <==> bincode_decoding(bytes@) is Some,
        decoded matches Ok(fields) ==> bincode_decoding(bytes@) == Some(
            (fields.0, text_of(fields.1), text_of(fields.2), text_of(fields.3), fields.4),
        ),
{
    bincode::deserialize(bytes)
}

/// Trusted: `fastrand::usize` over the whole range of `usize`. The number is
/// random: nothing is claimed of it.
#[verifier::external_body]
fn random_instance_id() -> usize {
    fastrand::usize(..)
}

/// Trusted: `std::path::Path::parent`, on a path given and returned as text.
/// Where the separators lie depends on the platform, so of the result only
/// this is claimed: the empty path has no parent.
#[verifier::external_body]
fn parent_directory(path: &String) -> (parent: Option<String>)
    ensures
        path@.len() == 0 ==> parent is None,
{
    std::path::Path::new(path).parent().map(|parent| parent.to_string_lossy().into_owned())
}

/// The version under which [`Instance::flatten`] stores an instance.
pub const INSTANCE_VERSION: u16 = 1;

/// The durable state of one plugin instance.
#[derive(Debug, PartialEq, Eq)]
pub struct Instance {
    /// Names the instance in the debug and error store.
    pub id: usize,
    /// The source text of the script.
    pub src: Option<String>,
    /// The environment that the script runs in.
    pub venv_path: Option<String>,
    /// Where the script was last read from.
    pub last_known_path: Option<String>,
    /// The render job that the instance started and has not seen end. After
    /// a reload it names no live job.
    pub active_job: Option<JobId>,
}

/// An instance as a mathematical value: its texts are sequences of characters.
pub struct InstanceView {
    pub id: usize,
    pub src: Option<Seq<char>>,
    pub venv_path: Option<Seq<char>>,
    pub last_known_path: Option<Seq<char>>,
    pub active_job: Option<JobId>,
}

impl View for Instance {
    type V = InstanceView;

    open spec fn view(&self) -> InstanceView {
        InstanceView {
            id: self.id,
            src: text_of(self.src),
            venv_path: text_of(self.venv_path),
            last_known_path: text_of(self.last_known_path),
            active_job: self.active_job,
        }
    }
}

impl Default for Instance {
    /// An instance without script, environment or job, with id 0.
    fn default() -> (instance: Instance)
        ensures
            instance@ == (InstanceView {
                id: 0,
                src: None,
                venv_path: None,
                last_known_path: None,
                active_job: None,
            }),
    {
        Instance { id: 0, src: None, venv_path: None, last_known_path: None, active_job: None }
    }
}

/// The number of an optional job identity.
pub open spec fn job_number(job: Option<JobId>) -> Option<u64> {
    match job {
        Some(id) => Some(id.raw),
        None => None,
    }
}

/// The instance that a tuple of decoded fields stands for, where the id fits
/// an instance id of this machine.
pub open spec fn instance_of_fields(
    fields: (u64, Option<Seq<char>>, Option<Seq<char>>, Option<Seq<char>>, Option<u64>),
) -> InstanceView
    recommends
        fields.0 <= usize::MAX,
{
    InstanceView {
        id: fields.0 as usize,
        src: fields.1,
        venv_path: fields.2,
        last_known_path: fields.3,
        active_job: match fields.4 {
            Some(raw) => Some(JobId { raw }),
            None => None,
        },
    }
}

impl InstanceView {
    /// The payload of version 1 for this instance, where it can be encoded.
    pub open spec fn encoding(self) -> Option<Seq<u8>> {
        bincode_encoding(
            self.id as u64,
            self.src,
            self.venv_path,
            self.last_known_path,
            job_number(self.active_job),
        )
    }
}

impl Instance {
    /// What [`Instance::unflatten`] returns: the instance that the payload
    /// decodes to, for version 1 and a payload that decodes; for any other
    /// version, for a payload that does not decode, and for an id that is
    /// too large for this machine, a `DeserializationError`.
    pub open spec fn spec_unflatten(version: u16, serialized: Seq<u8>) -> Result<
        InstanceView,
        Error,
    > {
        if version != INSTANCE_VERSION {
            Err(Error::DeserializationError)
        } else {
            match bincode_decoding(serialized) {
                Some(fields) => if fields.0 <= usize::MAX {
                    Ok(instance_of_fields(fields))
                } else {
                    Err(Error::DeserializationError)
                },
                None => Err(Error::DeserializationError),
            }
        }
    }

    /// Frames the outcome of the encoder: a payload is stored under
    /// [`INSTANCE_VERSION`], and a failure becomes a `SerializationError`.
    pub fn framed(encoded: Result<Vec<u8>, Box<bincode::ErrorKind>>) -> (stored: Result<
        (u16, Vec<u8>),
        Error,
    >)
        ensures
            stored is Ok <==> encoded is Ok,
            stored matches Ok(pair) ==> pair.0 == INSTANCE_VERSION && Ok::<
                Vec<u8>,
                Box<bincode::ErrorKind>,
            >(pair.1) == encoded,
            stored matches Err(error) ==> error == Error::SerializationError,
    {
        match encoded {
            Ok(payload) => Ok((INSTANCE_VERSION, payload)),
            Err(_) => Err(Error::SerializationError),
        }
    }

    /// Builds the instance from the outcome of the decoder: decoded fields
    /// become the instance with exactly these fields, and a failure becomes a
    /// `DeserializationError`, as does an id that is too large for this
    /// machine. A decoded job is taken as it is, whether or not any registry
    /// knows it.
    pub fn from_decoded(
        decoded: Result<
            (u64, Option<String>, Option<String>, Option<String>, Option<u64>),
            Box<bincode::ErrorKind>,
        >,
    ) -> (loaded: Result<Instance, Error>)
        ensures
            loaded is Ok <==> (decoded matches Ok(fields) && fields.0 <= usize::MAX),
            loaded matches Ok(instance) ==> decoded matches Ok(fields) && instance.id == fields.0
                && instance.src == fields.1 && instance.venv_path == fields.2
                && instance.last_known_path == fields.3 && job_number(instance.active_job)
                == fields.4,
            loaded matches Err(error) ==> error == Error::DeserializationError,
    {
        match decoded {
            Ok(fields) => {
                if fields.0 > usize::MAX as u64 {
                    return Err(Error::DeserializationError);
                }
                let active_job = match fields.4 {
                    Some(raw) => Some(JobId { raw }),
                    None => None,
                };
                Ok(
                    Instance {
                        id: fields.0 as usize,
                        src: fields.1,
                        venv_path: fields.2,
                        last_known_path: fields.3,
                        active_job,
                    },
                )
            },
            Err(_) => Err(Error::DeserializationError),
        }
    }

    /// The stored form of the instance: [`INSTANCE_VERSION`] and the payload.
    ///
    /// It fails, with a `SerializationError`, exactly where the encoder does.
    /// What it returns, [`Instance::unflatten`] reads back as an instance
    /// equal to this one in every field.
    pub fn flatten(&self) -> (stored: Result<(u16, Vec<u8>), Error>)
        ensures
            stored is Ok <==> self@.encoding() is Some,
            stored matches Ok(pair) ==> pair.0 == INSTANCE_VERSION && self@.encoding() == Some(
                pair.1@,
            ),
            stored matches Ok(pair) ==> Self::spec_unflatten(pair.0, pair.1@) == Ok::<
                InstanceView,
                Error,
            >(self@),
            stored matches Err(error) ==> error == Error::SerializationError,
    {
        let active_job = match self.active_job {
            Some(id) => Some(id.raw),
            None => None,
        };
        let encoded = encode_fields(
            self.id as u64,
            &self.src,
            &self.venv_path,
            &self.last_known_path,
            active_job,
        );
        Self::framed(encoded)
    }

    /// Reads an instance back from its stored form. See
    /// [`Instance::spec_unflatten`]. Bytes after the payload are ignored.
    pub fn unflatten(version: u16, serialized: &[u8]) -> (loaded: Result<Instance, Error>)
        ensures
            version != INSTANCE_VERSION ==> loaded is Err,
            loaded matches Ok(instance) ==> Self::spec_unflatten(version, serialized@) == Ok::<
                InstanceView,
                Error,
            >(instance@),
            loaded matches Err(error) ==> Self::spec_unflatten(version, serialized@) == Err::<
                InstanceView,
                Error,
            >(error),
    {
        if version != INSTANCE_VERSION {
            return Err(Error::DeserializationError);
        }
        let decoded = decode_fields(serialized);
        let loaded = Self::from_decoded(decoded);
        loaded
    }

    /// A stored form of any version but [`INSTANCE_VERSION`] is refused with
    /// a `DeserializationError`, whatever its bytes.
    pub proof fn law_unknown_version_is_refused(version: u16, serialized: Seq<u8>)
        requires
            version != INSTANCE_VERSION,
        ensures
            Self::spec_unflatten(version, serialized) == Err::<InstanceView, Error>(
                Error::DeserializationError,
            ),
    {
    }

    /// The instance does not know where its script lies: it has no last
    /// known path, or an empty one.
    pub open spec fn has_no_script_path(&self) -> bool {
        match self.last_known_path {
            Some(path) => path@.len() == 0,
            None => true,
        }
    }

    /// The loading of the script, if the instance has one.
    pub open spec fn spec_load_plan(&self) -> Seq<InstanceAction> {
        match self.src {
            Some(source) => seq![InstanceAction::LoadScript(source)],
            None => Seq::empty(),
        }
    }

    /// The answer to a resetup, given the directory of the script: the
    /// environment is set if there is one, then the directory if there is
    /// one, then the script is loaded if there is one.
    pub open spec fn spec_resetup_plan(&self, parent: Option<String>) -> Seq<InstanceAction> {
        let venv = match self.venv_path {
            Some(path) => seq![InstanceAction::SetVenvPath(path)],
            None => Seq::empty(),
        };
        let directory = match parent {
            Some(path) => seq![InstanceAction::SetScriptParentDirectory(path)],
            None => Seq::empty(),
        };
        venv + directory + self.spec_load_plan()
    }

    /// Computes [`Instance::spec_load_plan`].
    pub fn load_plan(&self) -> (plan: Vec<InstanceAction>)
        ensures
            plan@ == self.spec_load_plan(),
    {
        let mut plan: Vec<InstanceAction> = Vec::new();
        match &self.src {
            Some(source) => {
                plan.push(InstanceAction::LoadScript(source.clone()));
            },
            None => {},
        }
        plan
    }

    /// Computes [`Instance::spec_resetup_plan`].
    pub fn resetup_plan(&self, parent: Option<String>) -> (plan: Vec<InstanceAction>)
        ensures
            plan@ == self.spec_resetup_plan(parent),
    {
        let mut plan: Vec<InstanceAction> = Vec::new();
        match &self.venv_path {
            Some(path) => {
                plan.push(InstanceAction::SetVenvPath(path.clone()));
            },
            None => {},
        }
        match parent {
            Some(path) => {
                plan.push(InstanceAction::SetScriptParentDirectory(path));
            },
            None => {},
        }
        match &self.src {
            Some(source) => {
                plan.push(InstanceAction::LoadScript(source.clone()));
            },
            None => {},
        }
        plan
    }

    /// Answers a command of the host with the actions to perform, in order.
    ///
    /// A setup gives the instance a new, random id and loads its script. A
    /// resetup forgets the active job, which did not survive the reload, and
    /// answers with [`Instance::spec_resetup_plan`] for the directory that
    /// holds the script; without a last known path, or with an empty one,
    /// there is no directory.
    /// Every other command leaves the instance as it is and is answered by
    /// [`stateless_plan`].
    pub fn handle_command(&mut self, command: Command) -> (plan: Vec<InstanceAction>)
        ensures
            command == Command::SequenceSetup ==> plan@ == old(self).spec_load_plan()
                && final(self)@ == (InstanceView { id: final(self).id, ..old(self)@ }),
            command == Command::SequenceResetup ==> final(self)@ == (InstanceView {
                active_job: None,
                ..old(self)@
            }) && exists|parent: Option<String>|
                plan@ == old(self).spec_resetup_plan(parent) && (old(self).has_no_script_path()
                    ==> parent is None),
            command != Command::SequenceSetup && command != Command::SequenceResetup ==> plan@
                == stateless_plan(command) && final(self)@ == old(self)@,
    {
        match command {
            Command::SequenceSetup => {
                self.id = random_instance_id();
                self.load_plan()
            },
            Command::SequenceResetup => {
                self.active_job = None;
                let parent = match &self.last_known_path {
                    Some(path) => parent_directory(path),
                    None => None,
                };
                let plan = self.resetup_plan(parent);
                assert(plan@ == old(self).spec_resetup_plan(parent));
                plan
            },
            _ => plan_stateless(command),
        }
    }
}

} // verus!
