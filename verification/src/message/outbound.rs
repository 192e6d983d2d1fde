//! The owned outbound message and its builder. The builder accumulates
//! fields as pure value transforms, validates completeness, and commits them
//! into a freshly allocated native handle; the commit protocol tracks every
//! native allocation so that no error path leaks a handle.

use vstd::prelude::*;
use vstd::string::StrSliceExecFns;
use vstd::utf8::encode_utf8;
use vstd::utf8::encode_utf8_decode_utf8;
use vstd::utf8::encode_utf8_valid_utf8;

use crate::message::destination::valid_name;
use crate::message::destination::DestinationModel;
use crate::message::destination::MessageDestination;
use crate::message::ClassOfService;
use crate::message::DeliveryMode;
use crate::message::FieldRead;
use crate::message::Message;
use crate::message::MessageError;
use crate::message::destination_read_result;
use crate::message::text_read_result;
use crate::status::raw_is_ok;
use crate::status::SolClientReturnCode;
use crate::text::contains_nul;
use crate::text::crossable;

verus! {

/// A required builder field, named so that a missing-field error carries
/// which argument was never set.
#[derive(Clone, Copy, Debug, PartialEq, Eq, Structural)]
pub enum RequiredField {
    DeliveryMode,
    Destination,
    Message,
}

/// The errors the builder and the commit protocol can report.
#[derive(Clone, Copy, Debug, PartialEq, Eq, Structural)]
pub enum MessageBuilderError {
    /// Supplied text cannot cross the native boundary.
    InvalidArgs,
    /// A required field was never set; no native call was attempted beyond
    /// the allocation, and the allocated handle was freed.
    MissingArgs(RequiredField),
    /// A native set call reported a non-success status after allocation;
    /// the allocated handle was freed before returning.
    SolClientError,
    /// The native message allocation itself failed; nothing was allocated.
    MessageAllocFailure,
}

/// The mathematical value of an outbound message: the committed fields and
/// whether the owned handle was already destroyed.
#[verifier::ext_equal]
pub struct MessageModel {
    pub delivery_mode: DeliveryMode,
    pub destination: DestinationModel,
    pub payload: Seq<char>,
    pub correlation_id: Option<Seq<char>>,
    pub class_of_service: Option<ClassOfService>,
    pub freed: bool,
}

/// How one destroy step changes a message: afterwards the message counts as
/// freed, the native free is issued exactly when the message was not freed
/// before, and every committed field is kept.
pub open spec fn destroy_step(pre: MessageModel, post: MessageModel, issued: bool) -> bool {
    &&& post.freed
    &&& issued == !pre.freed
    &&& post.delivery_mode == pre.delivery_mode
    &&& post.destination == pre.destination
    &&& post.payload == pre.payload
    &&& post.correlation_id == pre.correlation_id
    &&& post.class_of_service == pre.class_of_service
}

/// A message that owns exactly one allocated native handle. It is created
/// only by committing a builder, and destroying it issues exactly one
/// native free.
pub struct OutboundMessage {
    delivery_mode: DeliveryMode,
    destination: MessageDestination,
    payload: String,
    correlation_id: Option<String>,
    class_of_service: Option<ClassOfService>,
    freed: bool,
}

impl View for OutboundMessage {
    type V = MessageModel;

    closed spec fn view(&self) -> MessageModel {
        MessageModel {
            delivery_mode: self.delivery_mode,
            destination: self.destination@,
            payload: self.payload@,
            correlation_id: match self.correlation_id {
                Some(s) => Some(s@),
                None => None,
            },
            class_of_service: self.class_of_service,
            freed: self.freed,
        }
    }
}

impl OutboundMessage {
    /// Marks the owned handle destroyed and says whether the native free
    /// call must be issued: exactly once, on the first destroy. A second
    /// destroy changes nothing and issues nothing, so the handle can never
    /// be freed twice.
    pub fn destroy(&mut self) -> (issue_free: bool)
        ensures
            destroy_step(old(self)@, final(self)@, issue_free),
    {
        let was_freed = self.freed;
        self.freed = true;
        !was_freed
    }
}

/// Law: however often a message is destroyed, the native free is issued
/// exactly once. The first destroy of a live message issues it; a destroy
/// after any earlier destroy never does.
pub proof fn lemma_destroy_frees_once(
    m0: MessageModel,
    m1: MessageModel,
    m2: MessageModel,
    first: bool,
    second: bool,
)
    requires
        !m0.freed,
        destroy_step(m0, m1, first),
        destroy_step(m1, m2, second),
    ensures
        first,
        !second,
{
}

impl Message for OutboundMessage {
    open spec fn readable(&self) -> bool {
        &&& !self@.freed
        &&& valid_name(self@.destination.name)
    }

    open spec fn payload_read(&self) -> FieldRead<Seq<u8>> {
        FieldRead::Value(encode_utf8(self@.payload))
    }

    open spec fn correlation_read(&self) -> FieldRead<Seq<u8>> {
        match self@.correlation_id {
            Some(s) => FieldRead::Value(encode_utf8(s)),
            None => FieldRead::Absent,
        }
    }

    open spec fn destination_read(&self) -> FieldRead<DestinationModel> {
        FieldRead::Value(self@.destination)
    }

    fn get_payload_as_bytes(&self) -> (r: Result<Vec<u8>, MessageError>) {
        Ok(self.payload.as_str().as_bytes_vec())
    }

    fn get_payload_as_str(&self) -> (r: Result<String, MessageError>) {
        proof {
            encode_utf8_valid_utf8(self@.payload);
            encode_utf8_decode_utf8(self@.payload);
        }
        Ok(self.payload.clone())
    }

    fn get_correlation_id(&self) -> (r: Result<String, MessageError>) {
        match &self.correlation_id {
            Some(s) => {
                proof {
                    encode_utf8_valid_utf8(s@);
                    encode_utf8_decode_utf8(s@);
                }
                Ok(s.clone())
            },
            None => Err(MessageError::ReadFailure),
        }
    }

    fn get_destination(&self) -> (r: Result<Option<MessageDestination>, MessageError>) {
        let d = MessageDestination {
            dest_type: self.destination.dest_type,
            dest: self.destination.dest.clone(),
        };
        proof {
            assert(d@ =~= self@.destination);
        }
        Ok(Some(d))
    }

    fn get_application_message_id(&self) -> (r: Result<String, MessageError>) {
        Err(MessageError::NotImplemented)
    }

    fn get_application_message_type(&self) -> (r: Result<String, MessageError>) {
        Err(MessageError::NotImplemented)
    }

    fn get_class_of_service(&self) -> (r: Result<ClassOfService, MessageError>) {
        Err(MessageError::NotImplemented)
    }

    fn get_expiration(&self) -> (r: Result<u64, MessageError>) {
        Err(MessageError::NotImplemented)
    }

    fn get_priority(&self) -> (r: Result<u8, MessageError>) {
        Err(MessageError::NotImplemented)
    }

    fn get_sequence_number(&self) -> (r: Result<i64, MessageError>) {
        Err(MessageError::NotImplemented)
    }
}

/// The mathematical value of a builder: each field either still unset or
/// already accumulated.
#[verifier::ext_equal]
pub struct BuilderModel {
    pub delivery_mode: Option<DeliveryMode>,
    pub destination: Option<DestinationModel>,
    pub message: Option<Seq<char>>,
    pub correlation_id: Option<Seq<char>>,
    pub class_of_service: Option<ClassOfService>,
}

/// A builder's invariant: whatever text it holds can cross the native
/// boundary, and a held destination satisfies the destination invariant.
pub open spec fn builder_wf(b: BuilderModel) -> bool {
    &&& (b.destination matches Some(d) ==> valid_name(d.name))
    &&& (b.message matches Some(p) ==> crossable(p))
    &&& (b.correlation_id matches Some(c) ==> crossable(c))
}

/// The first required field a builder is missing, in the order the commit
/// protocol checks them, or `None` when the builder is complete.
pub open spec fn first_missing(b: BuilderModel) -> Option<RequiredField> {
    if b.delivery_mode is None {
        Some(RequiredField::DeliveryMode)
    } else if b.destination is None {
        Some(RequiredField::Destination)
    } else if b.message is None {
        Some(RequiredField::Message)
    } else {
        None
    }
}

/// The message a complete builder commits to: its fields, owned by a live
/// handle.
pub open spec fn committed(b: BuilderModel) -> MessageModel {
    MessageModel {
        delivery_mode: b.delivery_mode.unwrap(),
        destination: b.destination.unwrap(),
        payload: b.message.unwrap(),
        correlation_id: b.correlation_id,
        class_of_service: b.class_of_service,
        freed: false,
    }
}

/// Where a fault-free run of the commit protocol stands after a number of
/// steps, starting from the pending allocation.
pub open spec fn all_ok_stage(b: BuilderModel, steps: nat) -> CommitStage
    decreases steps,
{
    if steps == 0 {
        CommitStage::Alloc
    } else {
        next_stage(all_ok_stage(b, (steps - 1) as nat), b, true)
    }
}

/// Accumulates the fields of an outbound message. Every setter is a pure
/// value transform consuming the builder; only the text-bearing setters can
/// fail, by rejecting text that cannot cross the native boundary.
pub struct OutboundMessageBuilder {
    delivery_mode: Option<DeliveryMode>,
    destination: Option<MessageDestination>,
    message: Option<String>,
    correlation_id: Option<String>,
    class_of_service: Option<ClassOfService>,
}

impl View for OutboundMessageBuilder {
    type V = BuilderModel;

    closed spec fn view(&self) -> BuilderModel {
        BuilderModel {
            delivery_mode: self.delivery_mode,
            destination: match self.destination {
                Some(d) => Some(d@),
                None => None,
            },
            message: match self.message {
                Some(s) => Some(s@),
                None => None,
            },
            correlation_id: match self.correlation_id {
                Some(s) => Some(s@),
                None => None,
            },
            class_of_service: self.class_of_service,
        }
    }
}

impl OutboundMessageBuilder {
    /// The builder's invariant.
    pub open spec fn wf(&self) -> bool {
        builder_wf(self@)
    }

    /// Creates a builder with every field unset.
    pub fn new() -> (r: OutboundMessageBuilder)
        ensures
            r@.delivery_mode is None,
            r@.destination is None,
            r@.message is None,
            r@.correlation_id is None,
            r@.class_of_service is None,
            r.wf(),
    {
        OutboundMessageBuilder {
            delivery_mode: None,
            destination: None,
            message: None,
            correlation_id: None,
            class_of_service: None,
        }
    }

    /// Sets the delivery mode.
    pub fn set_delivery_mode(self, mode: DeliveryMode) -> (r: OutboundMessageBuilder)
        ensures
            r@.delivery_mode == Some(mode),
            r@.destination == self@.destination,
            r@.message == self@.message,
            r@.correlation_id == self@.correlation_id,
            r@.class_of_service == self@.class_of_service,
    {
        OutboundMessageBuilder { delivery_mode: Some(mode), ..self }
    }

    /// Sets the destination.
    pub fn set_destination(self, destination: MessageDestination) -> (r: OutboundMessageBuilder)
        requires
            destination.wf(),
        ensures
            r@.delivery_mode == self@.delivery_mode,
            r@.destination == Some(destination@),
            r@.message == self@.message,
            r@.correlation_id == self@.correlation_id,
            r@.class_of_service == self@.class_of_service,
    {
        OutboundMessageBuilder { destination: Some(destination), ..self }
    }

    /// Sets the class of service.
    pub fn set_class_of_service(self, cos: ClassOfService) -> (r: OutboundMessageBuilder)
        ensures
            r@.delivery_mode == self@.delivery_mode,
            r@.destination == self@.destination,
            r@.message == self@.message,
            r@.correlation_id == self@.correlation_id,
            r@.class_of_service == Some(cos),
    {
        OutboundMessageBuilder { class_of_service: Some(cos), ..self }
    }

    /// Sets the payload text. Text holding an embedded null terminator
    /// cannot cross the native boundary and is rejected with `InvalidArgs`;
    /// no native call is applied.
    pub fn set_binary_string(self, message: &str) -> (r: Result<
        OutboundMessageBuilder,
        MessageBuilderError,
    >)
        ensures
            !crossable(message@) ==> r == Err::<OutboundMessageBuilder, MessageBuilderError>(
                MessageBuilderError::InvalidArgs,
            ),
            crossable(message@) ==> (r matches Ok(b) && {
                &&& b@.delivery_mode == self@.delivery_mode
                &&& b@.destination == self@.destination
                &&& b@.message == Some(message@)
                &&& b@.correlation_id == self@.correlation_id
                &&& b@.class_of_service == self@.class_of_service
            }),
    {
        if contains_nul(message) {
            return Err(MessageBuilderError::InvalidArgs);
        }
        Ok(OutboundMessageBuilder { message: Some(message.to_owned()), ..self })
    }

    /// Sets the correlation id. Text holding an embedded null terminator
    /// cannot cross the native boundary and is rejected with `InvalidArgs`;
    /// no native call is applied.
    pub fn set_correlation_id(self, id: &str) -> (r: Result<
        OutboundMessageBuilder,
        MessageBuilderError,
    >)
        ensures
            !crossable(id@) ==> r == Err::<OutboundMessageBuilder, MessageBuilderError>(
                MessageBuilderError::InvalidArgs,
            ),
            crossable(id@) ==> (r matches Ok(b) && {
                &&& b@.delivery_mode == self@.delivery_mode
                &&& b@.destination == self@.destination
                &&& b@.message == self@.message
                &&& b@.correlation_id == Some(id@)
                &&& b@.class_of_service == self@.class_of_service
            }),
    {
        if contains_nul(id) {
            return Err(MessageBuilderError::InvalidArgs);
        }
        Ok(OutboundMessageBuilder { correlation_id: Some(id.to_owned()), ..self })
    }

    /// Validates completeness and commits the fields: the result is the
    /// message a fault-free run of the commit protocol produces. A builder
    /// missing a required field fails with the matching `MissingArgs`.
    pub fn build(self) -> (r: Result<OutboundMessage, MessageBuilderError>)
        requires
            self.wf(),
        ensures
            match first_missing(self@) {
                Some(f) => r == Err::<OutboundMessage, MessageBuilderError>(
                    MessageBuilderError::MissingArgs(f),
                ),
                None => r matches Ok(m) && m@ == committed(self@),
            },
    {
        let mut commit = BuildCommit::start(self);
        let mut calls: usize = 0;
        // A fault-free protocol run ends within seven steps: the
        // allocation, at most five set calls, and at most one cleanup free.
        while calls < 7
            invariant
                commit.inv(),
                commit.builder_model() == self@,
                calls <= 7,
                commit.stage == all_ok_stage(self@, calls as nat),
            decreases 7 - calls,
        {
            commit.step(crate::status::SOLCLIENT_OK);
            calls += 1;
        }
        proof {
            reveal_with_fuel(all_ok_stage, 8);
        }
        match commit.finish() {
            Some(result) => result,
            // Unreachable: after seven fault-free steps the protocol has
            // ended.
            None => Err(MessageBuilderError::SolClientError),
        }
    }
}

impl Default for OutboundMessageBuilder {
    /// Same as `OutboundMessageBuilder::new`.
    fn default() -> (r: OutboundMessageBuilder)
        ensures
            r@.delivery_mode is None,
            r@.destination is None,
            r@.message is None,
            r@.correlation_id is None,
            r@.class_of_service is None,
            r.wf(),
    {
        OutboundMessageBuilder::new()
    }
}

/// Law: a committed message holds the destination the builder was given, so
/// reading the destination back yields an equal kind and name.
pub proof fn lemma_destination_round_trip(
    b: BuilderModel,
    m: OutboundMessage,
    d: DestinationModel,
)
    requires
        b.destination == Some(d),
        m@ == committed(b),
    ensures
        m.destination_read() == FieldRead::Value(d),
        forall|r: Result<Option<MessageDestination>, MessageError>|
            #[trigger] destination_read_result(m.destination_read(), r) ==> (r matches Ok(
                Some(x),
            ) && x@ == d),
{
}

/// Law: a committed message holds the correlation id the builder was given,
/// so reading it back yields the identical text.
pub proof fn lemma_correlation_round_trip(b: BuilderModel, m: OutboundMessage, c: Seq<char>)
    requires
        b.correlation_id == Some(c),
        m@ == committed(b),
    ensures
        m.correlation_read() == FieldRead::Value(encode_utf8(c)),
        forall|r: Result<String, MessageError>|
            #[trigger] text_read_result(m.correlation_read(), r) ==> (r matches Ok(s) && s@
                == c),
{
    encode_utf8_valid_utf8(c);
    encode_utf8_decode_utf8(c);
}

/// The next native call the commit protocol asks the embedding to make.
/// The embedding performs the call and hands the returned status code back
/// to `BuildCommit::step`.
pub enum NativeAction {
    /// Allocate a fresh message handle.
    AllocMsg,
    /// Apply the delivery mode, in its native encoding.
    SetDeliveryMode(u32),
    /// Apply the destination: its native kind and its name.
    SetDestination(i32, String),
    /// Apply the payload text; the native layer copies the bytes in.
    SetBinaryString(String),
    /// Apply the correlation id.
    SetCorrelationId(String),
    /// Apply the class of service, in its native encoding.
    SetClassOfService(u32),
    /// Free the allocated handle: an error was found after allocation.
    FreeMsg,
}

/// Where the commit protocol stands: which native call is pending, or how
/// it ended.
#[derive(Clone, Copy, Debug, PartialEq, Eq, Structural)]
pub enum CommitStage {
    /// The allocation is pending.
    Alloc,
    /// The delivery mode set call is pending.
    DeliveryMode,
    /// The destination set call is pending.
    Destination,
    /// The payload set call is pending.
    Payload,
    /// The correlation id set call is pending.
    CorrelationId,
    /// The class of service set call is pending.
    ClassOfService,
    /// An error was found after a successful allocation: the free of the
    /// allocated handle is pending, and the protocol then fails with the
    /// held error.
    Cleanup(MessageBuilderError),
    /// Every call succeeded; the committed message can be taken.
    Done,
    /// The protocol failed with the held error; no handle is left behind.
    Failed(MessageBuilderError),
}

/// Where the commit protocol moves on one returned status. The required
/// fields are checked in order, each right before the native call that
/// applies it; any non-success status after allocation diverts to the
/// cleanup stage so the handle is freed before the error is reported.
pub open spec fn next_stage(stage: CommitStage, b: BuilderModel, ok: bool) -> CommitStage {
    match stage {
        CommitStage::Alloc => {
            if !ok {
                CommitStage::Failed(MessageBuilderError::MessageAllocFailure)
            } else if b.delivery_mode is None {
                CommitStage::Cleanup(MessageBuilderError::MissingArgs(RequiredField::DeliveryMode))
            } else {
                CommitStage::DeliveryMode
            }
        },
        CommitStage::DeliveryMode => {
            if !ok {
                CommitStage::Cleanup(MessageBuilderError::SolClientError)
            } else if b.destination is None {
                CommitStage::Cleanup(MessageBuilderError::MissingArgs(RequiredField::Destination))
            } else {
                CommitStage::Destination
            }
        },
        CommitStage::Destination => {
            if !ok {
                CommitStage::Cleanup(MessageBuilderError::SolClientError)
            } else if b.message is None {
                CommitStage::Cleanup(MessageBuilderError::MissingArgs(RequiredField::Message))
            } else {
                CommitStage::Payload
            }
        },
        CommitStage::Payload => {
            if !ok {
                CommitStage::Cleanup(MessageBuilderError::SolClientError)
            } else if b.correlation_id is Some {
                CommitStage::CorrelationId
            } else if b.class_of_service is Some {
                CommitStage::ClassOfService
            } else {
                CommitStage::Done
            }
        },
        CommitStage::CorrelationId => {
            if !ok {
                CommitStage::Cleanup(MessageBuilderError::SolClientError)
            } else if b.class_of_service is Some {
                CommitStage::ClassOfService
            } else {
                CommitStage::Done
            }
        },
        CommitStage::ClassOfService => {
            if !ok {
                CommitStage::Cleanup(MessageBuilderError::SolClientError)
            } else {
                CommitStage::Done
            }
        },
        CommitStage::Cleanup(e) => CommitStage::Failed(e),
        CommitStage::Done => CommitStage::Done,
        CommitStage::Failed(e) => CommitStage::Failed(e),
    }
}

/// The commit protocol: the ordered native calls that turn a builder into
/// an allocated, populated message handle. The protocol owns the decisions;
/// the embedding only performs the pending call and reports the status code
/// it got. The counters record every successful native allocation and every
/// issued free, so the no-leak guarantee is a visible invariant.
pub struct BuildCommit {
    /// The builder whose fields are being committed.
    pub builder: OutboundMessageBuilder,
    /// Where the protocol stands.
    pub stage: CommitStage,
    /// How many native message allocations succeeded.
    pub allocs: u32,
    /// How many native frees the protocol issued.
    pub frees: u32,
}

impl BuildCommit {
    /// The fields the protocol is committing.
    pub open spec fn builder_model(&self) -> BuilderModel {
        self.builder@
    }

    /// The protocol's invariant. In every stage the counters and the held
    /// fields line up: a live handle exists exactly between a successful
    /// allocation and either the final message or the cleanup free, and a
    /// failed protocol has freed exactly what it allocated.
    pub open spec fn inv(&self) -> bool {
        &&& builder_wf(self.builder_model())
        &&& match self.stage {
            CommitStage::Alloc => self.allocs == 0 && self.frees == 0,
            CommitStage::DeliveryMode => {
                &&& self.allocs == 1
                &&& self.frees == 0
                &&& self.builder_model().delivery_mode is Some
            },
            CommitStage::Destination => {
                &&& self.allocs == 1
                &&& self.frees == 0
                &&& self.builder_model().delivery_mode is Some
                &&& self.builder_model().destination is Some
            },
            CommitStage::Payload => {
                &&& self.allocs == 1
                &&& self.frees == 0
                &&& first_missing(self.builder_model()) is None
            },
            CommitStage::CorrelationId => {
                &&& self.allocs == 1
                &&& self.frees == 0
                &&& first_missing(self.builder_model()) is None
                &&& self.builder_model().correlation_id is Some
            },
            CommitStage::ClassOfService => {
                &&& self.allocs == 1
                &&& self.frees == 0
                &&& first_missing(self.builder_model()) is None
                &&& self.builder_model().class_of_service is Some
            },
            CommitStage::Cleanup(e) => {
                &&& self.allocs == 1
                &&& self.frees == 0
                &&& !(e is MessageAllocFailure)
            },
            CommitStage::Done => {
                &&& self.allocs == 1
                &&& self.frees == 0
                &&& first_missing(self.builder_model()) is None
            },
            CommitStage::Failed(e) => {
                &&& self.frees == self.allocs
                &&& self.allocs <= 1
                &&& (e is MessageAllocFailure ==> self.allocs == 0)
            },
        }
    }

    /// Starts the commit protocol on a builder: the allocation is the first
    /// pending call, before any field is checked, because every later call
    /// needs a handle to operate on.
    pub fn start(builder: OutboundMessageBuilder) -> (c: BuildCommit)
        requires
            builder.wf(),
        ensures
            c.stage == CommitStage::Alloc,
            c.allocs == 0,
            c.frees == 0,
            c.builder_model() == builder@,
            c.inv(),
    {
        BuildCommit { builder, stage: CommitStage::Alloc, allocs: 0, frees: 0 }
    }

    /// The native call the embedding must make next, or `None` when the
    /// protocol has ended.
    pub fn pending_action(&self) -> (r: Option<NativeAction>)
        requires
            self.inv(),
        ensures
            match self.stage {
                CommitStage::Alloc => r == Some(NativeAction::AllocMsg),
                CommitStage::DeliveryMode => r matches Some(NativeAction::SetDeliveryMode(m))
                    && m == self.builder_model().delivery_mode.unwrap().spec_raw(),
                CommitStage::Destination => r matches Some(NativeAction::SetDestination(k, n)) && {
                    &&& k == self.builder_model().destination.unwrap().kind.spec_raw()
                    &&& n@ == self.builder_model().destination.unwrap().name
                },
                CommitStage::Payload => r matches Some(NativeAction::SetBinaryString(p)) && p@
                    == self.builder_model().message.unwrap(),
                CommitStage::CorrelationId => r matches Some(NativeAction::SetCorrelationId(c))
                    && c@ == self.builder_model().correlation_id.unwrap(),
                CommitStage::ClassOfService => r matches Some(NativeAction::SetClassOfService(c))
                    && c == self.builder_model().class_of_service.unwrap().spec_raw(),
                CommitStage::Cleanup(_) => r == Some(NativeAction::FreeMsg),
                CommitStage::Done => r is None,
                CommitStage::Failed(_) => r is None,
            },
    {
        match self.stage {
            CommitStage::Alloc => Some(NativeAction::AllocMsg),
            CommitStage::DeliveryMode => match &self.builder.delivery_mode {
                Some(m) => Some(NativeAction::SetDeliveryMode(m.to_raw())),
                None => None,
            },
            CommitStage::Destination => match &self.builder.destination {
                Some(d) => Some(NativeAction::SetDestination(d.dest_type.to_raw(), d.dest.clone())),
                None => None,
            },
            CommitStage::Payload => match &self.builder.message {
                Some(p) => Some(NativeAction::SetBinaryString(p.clone())),
                None => None,
            },
            CommitStage::CorrelationId => match &self.builder.correlation_id {
                Some(c) => Some(NativeAction::SetCorrelationId(c.clone())),
                None => None,
            },
            CommitStage::ClassOfService => match &self.builder.class_of_service {
                Some(c) => Some(NativeAction::SetClassOfService(c.to_raw())),
                None => None,
            },
            CommitStage::Cleanup(_) => Some(NativeAction::FreeMsg),
            CommitStage::Done => None,
            CommitStage::Failed(_) => None,
        }
    }

    /// Advances the protocol on the status code the pending call returned.
    /// The status is checked through the translator before anything the
    /// call wrote is trusted; the free status in the cleanup stage is the
    /// one exception, logged and swallowed, since resource cleanup must not
    /// escalate. A finished protocol stays where it is.
    pub fn step(&mut self, status: i32)
        requires
            old(self).inv(),
        ensures
            final(self).inv(),
            final(self).builder_model() == old(self).builder_model(),
            final(self).stage == next_stage(
                old(self).stage,
                old(self).builder_model(),
                raw_is_ok(status),
            ),
            final(self).allocs == old(self).allocs + (
            if old(self).stage is Alloc && raw_is_ok(status) {
                1int
            } else {
                0int
            }),
            final(self).frees == old(self).frees + (
            if old(self).stage is Cleanup {
                1int
            } else {
                0int
            }),
    {
        let ok = SolClientReturnCode::from_raw(status).is_success();
        match self.stage {
            CommitStage::Alloc => {
                if !ok {
                    self.stage = CommitStage::Failed(MessageBuilderError::MessageAllocFailure);
                } else {
                    self.allocs = self.allocs + 1;
                    if self.builder.delivery_mode.is_none() {
                        self.stage = CommitStage::Cleanup(
                            MessageBuilderError::MissingArgs(RequiredField::DeliveryMode),
                        );
                    } else {
                        self.stage = CommitStage::DeliveryMode;
                    }
                }
            },
            CommitStage::DeliveryMode => {
                if !ok {
                    self.stage = CommitStage::Cleanup(MessageBuilderError::SolClientError);
                } else if self.builder.destination.is_none() {
                    self.stage = CommitStage::Cleanup(
                        MessageBuilderError::MissingArgs(RequiredField::Destination),
                    );
                } else {
                    self.stage = CommitStage::Destination;
                }
            },
            CommitStage::Destination => {
                if !ok {
                    self.stage = CommitStage::Cleanup(MessageBuilderError::SolClientError);
                } else if self.builder.message.is_none() {
                    self.stage = CommitStage::Cleanup(
                        MessageBuilderError::MissingArgs(RequiredField::Message),
                    );
                } else {
                    self.stage = CommitStage::Payload;
                }
            },
            CommitStage::Payload => {
                if !ok {
                    self.stage = CommitStage::Cleanup(MessageBuilderError::SolClientError);
                } else if self.builder.correlation_id.is_some() {
                    self.stage = CommitStage::CorrelationId;
                } else if self.builder.class_of_service.is_some() {
                    self.stage = CommitStage::ClassOfService;
                } else {
                    self.stage = CommitStage::Done;
                }
            },
            CommitStage::CorrelationId => {
                if !ok {
                    self.stage = CommitStage::Cleanup(MessageBuilderError::SolClientError);
                } else if self.builder.class_of_service.is_some() {
                    self.stage = CommitStage::ClassOfService;
                } else {
                    self.stage = CommitStage::Done;
                }
            },
            CommitStage::ClassOfService => {
                if !ok {
                    self.stage = CommitStage::Cleanup(MessageBuilderError::SolClientError);
                } else {
                    self.stage = CommitStage::Done;
                }
            },
            CommitStage::Cleanup(e) => {
                self.frees = self.frees + 1;
                self.stage = CommitStage::Failed(e);
            },
            CommitStage::Done => {},
            CommitStage::Failed(_) => {},
        }
    }

    /// Takes the protocol's outcome: the committed message after a full
    /// run, the held error after a failure, nothing while calls are still
    /// pending.
    pub fn finish(self) -> (r: Option<Result<OutboundMessage, MessageBuilderError>>)
        requires
            self.inv(),
        ensures
            match self.stage {
                CommitStage::Done => r matches Some(Ok(m)) && m@ == committed(
                    self.builder_model(),
                ),
                CommitStage::Failed(e) => r == Some(
                    Err::<OutboundMessage, MessageBuilderError>(e),
                ),
                _ => r is None,
            },
    {
        match self.stage {
            CommitStage::Done => {
                let b = self.builder;
                match (b.delivery_mode, b.destination, b.message) {
                    (Some(delivery_mode), Some(destination), Some(payload)) => {
                        let m = OutboundMessage {
                            delivery_mode,
                            destination,
                            payload,
                            correlation_id: b.correlation_id,
                            class_of_service: b.class_of_service,
                            freed: false,
                        };
                        proof {
                            assert(m@ =~= committed(self.builder_model()));
                        }
                        Some(Ok(m))
                    },
                    _ => None,
                }
            },
            CommitStage::Failed(e) => Some(Err(e)),
            _ => None,
        }
    }
}

/// Law: a commit protocol that ended in failure issued exactly one native
/// free for every successful allocation — no error path, a missing field
/// included, leaks a handle.
pub proof fn lemma_failed_commit_balanced(c: BuildCommit)
    requires
        c.inv(),
        c.stage matches CommitStage::Failed(_),
    ensures
        c.frees == c.allocs,
{
}

} // verus!
