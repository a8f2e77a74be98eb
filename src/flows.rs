//! The flow orchestrator: for one attempt, the fixed pipeline of optional
//! pre-steps (access token, tokenization, connector customer,
//! pre-processing) and the main call, as decisions from state and outcome to
//! next state and action. The caller performs each transport call and hands
//! back its outcome.
use vstd::prelude::*;

use crate::capability::Integration;
use crate::dummyconnector::{DummyConnector, RequestModel};
use crate::errors::{ConnectorError, ErrorResponse};
use crate::services::{spec_is_success_status, Request, RequestBody, Response, ResponsePayload};
use crate::transformers::DummyConnectorPaymentStatus;
use crate::types::{
    AccessToken, AttemptStatus, ConnectorAuthType, Connectors, Currency, Flow, FlowRequest,
    FlowResponse, PaymentsResponseData, ResponseId, RouterData,
};

verus! {

/// Whether the main call goes to the network.
#[derive(Clone, Debug, PartialEq, Eq)]
pub enum CallConnectorAction {
    /// Perform the call.
    Trigger,
    /// Skip it: the result is already known.
    Avoid,
    /// Decode this response without a new call, as on a redirect callback.
    HandleResponse(Response),
}

/// The kind of callback that a redirect brings back.
#[derive(Clone, Copy, Debug, PartialEq, Eq, Structural)]
pub enum PaymentAction {
    PSync,
    CompleteAuthorize,
}

/// How the connector obtains its bearer credential.
#[derive(Clone, Copy, Debug, PartialEq, Eq, Structural)]
pub enum GetToken {
    /// Supplied with the merchant's configuration.
    Metadata,
    /// Acquired from the connector before the main call.
    Connector,
}

/// The connector chosen for an attempt.
#[derive(Clone, Debug, PartialEq, Eq)]
pub struct ConnectorData {
    pub connector_name: String,
    pub get_token: GetToken,
}

/// Whether and where payment-method data is exchanged for a token.
#[derive(Clone, Debug, PartialEq, Eq)]
pub enum TokenizationAction {
    TokenizeInRouter,
    TokenizeInConnector,
    TokenizeInConnectorAndRouter,
    ConnectorToken(String),
    SkipConnectorTokenization,
}

impl TokenizationAction {
    pub open spec fn spec_needs_connector(&self) -> bool {
        self is TokenizeInConnector || self is TokenizeInConnectorAndRouter
    }

    /// Whether the connector must tokenize the instrument.
    pub fn needs_connector(&self) -> (r: bool)
        ensures
            r == self.spec_needs_connector(),
    {
        match self {
            TokenizationAction::TokenizeInConnector
            | TokenizationAction::TokenizeInConnectorAndRouter => true,
            _ => false,
        }
    }
}

/// The stages of the pipeline, in their fixed order.
#[derive(Clone, Copy, Debug, PartialEq, Eq, Structural)]
pub enum Stage {
    Start,
    AccessToken,
    Tokenization,
    ConnectorCustomer,
    PreProcessing,
    MainCall,
    Done,
}

pub open spec fn stage_rank(s: Stage) -> nat {
    match s {
        Stage::Start => 0,
        Stage::AccessToken => 1,
        Stage::Tokenization => 2,
        Stage::ConnectorCustomer => 3,
        Stage::PreProcessing => 4,
        Stage::MainCall => 5,
        Stage::Done => 6,
    }
}

fn rank(s: Stage) -> (r: u8)
    ensures
        r == stage_rank(s),
{
    match s {
        Stage::Start => 0,
        Stage::AccessToken => 1,
        Stage::Tokenization => 2,
        Stage::ConnectorCustomer => 3,
        Stage::PreProcessing => 4,
        Stage::MainCall => 5,
        Stage::Done => 6,
    }
}

/// Which optional pre-steps run for an attempt.
#[derive(Clone, Copy, Debug, PartialEq, Eq, Structural)]
pub struct PreSteps {
    pub access_token: bool,
    pub tokenization: bool,
    pub connector_customer: bool,
    pub pre_processing: bool,
}

/// The pre-steps of an attempt: the access token where the connector's token
/// strategy asks for it; tokenization where the policy asks for it and the
/// connector provides it; customer creation and pre-processing where the
/// connector provides them.
pub open spec fn spec_plan<const T: u8>(
    data: ConnectorData,
    tokenization_action: TokenizationAction,
) -> PreSteps {
    PreSteps {
        access_token: data.get_token == GetToken::Connector,
        tokenization: tokenization_action.spec_needs_connector()
            && DummyConnector::<T>::spec_integration(Flow::PaymentMethodToken)
            == Integration::Custom,
        connector_customer: DummyConnector::<T>::spec_integration(Flow::CreateConnectorCustomer)
            == Integration::Custom,
        pre_processing: DummyConnector::<T>::spec_integration(Flow::PreProcessing)
            == Integration::Custom,
    }
}

/// Decides which pre-steps run.
pub fn plan_pre_steps<const T: u8>(
    connector: &DummyConnector<T>,
    data: &ConnectorData,
    tokenization_action: &TokenizationAction,
) -> (r: PreSteps)
    ensures
        r == spec_plan::<T>(*data, *tokenization_action),
{
    let access_token = match data.get_token {
        GetToken::Connector => true,
        GetToken::Metadata => false,
    };
    let tokenization = tokenization_action.needs_connector() && match connector.integration(
        Flow::PaymentMethodToken,
    ) {
        Integration::Custom => true,
        Integration::Default => false,
    };
    let connector_customer = match connector.integration(Flow::CreateConnectorCustomer) {
        Integration::Custom => true,
        Integration::Default => false,
    };
    let pre_processing = match connector.integration(Flow::PreProcessing) {
        Integration::Custom => true,
        Integration::Default => false,
    };
    PreSteps { access_token, tokenization, connector_customer, pre_processing }
}

/// The first stage after `s` that runs: a pre-step that the plan selects, else
/// the main call, and after the main call, done.
pub open spec fn spec_next_stage(s: Stage, steps: PreSteps) -> Stage {
    let k = stage_rank(s);
    if k < 1 && steps.access_token {
        Stage::AccessToken
    } else if k < 2 && steps.tokenization {
        Stage::Tokenization
    } else if k < 3 && steps.connector_customer {
        Stage::ConnectorCustomer
    } else if k < 4 && steps.pre_processing {
        Stage::PreProcessing
    } else if k < 5 {
        Stage::MainCall
    } else {
        Stage::Done
    }
}

/// The stage that follows `s` in the pipeline.
pub fn next_stage(s: Stage, steps: &PreSteps) -> (r: Stage)
    ensures
        r == spec_next_stage(s, *steps),
        stage_rank(s) < 6 ==> stage_rank(s) < stage_rank(r),
{
    let k = rank(s);
    if k < 1 && steps.access_token {
        Stage::AccessToken
    } else if k < 2 && steps.tokenization {
        Stage::Tokenization
    } else if k < 3 && steps.connector_customer {
        Stage::ConnectorCustomer
    } else if k < 4 && steps.pre_processing {
        Stage::PreProcessing
    } else if k < 5 {
        Stage::MainCall
    } else {
        Stage::Done
    }
}

/// The progress of one attempt through the pipeline.
#[derive(Clone, Copy, Debug, PartialEq, Eq, Structural)]
pub struct PaymentFlowRun {
    pub stage: Stage,
    pub steps: PreSteps,
}

impl PaymentFlowRun {
    /// A run at its first stage.
    pub fn start(steps: PreSteps) -> (r: PaymentFlowRun)
        ensures
            r.steps == steps,
            r.stage == spec_next_stage(Stage::Start, steps),
    {
        PaymentFlowRun { stage: next_stage(Stage::Start, &steps), steps }
    }

    /// Moves to the next stage once the current one has completed.
    pub fn advance(&mut self)
        ensures
            final(self).steps == old(self).steps,
            final(self).stage == spec_next_stage(old(self).stage, old(self).steps),
    {
        self.stage = next_stage(self.stage, &self.steps);
    }
}

/// What the main call does.
#[derive(Clone, Debug, PartialEq, Eq)]
pub enum MainCall {
    /// Send this request and hand back the response.
    Send(Request),
    /// No transport call; the attempt stays as it is.
    Skip,
    /// Decode this response without a call.
    Decode(Response),
}

/// The attempt after an access-token step: an acquired token is attached; a
/// step that yields none leaves it as it was.
pub open spec fn spec_with_access_token(data: RouterData, token: Option<AccessToken>) -> RouterData {
    match token {
        Some(t) => RouterData { access_token: Some(t), ..data },
        None => data,
    }
}

/// The attempt after a tokenization step.
pub open spec fn spec_with_payment_method_token(data: RouterData, token: Option<String>) -> RouterData {
    match token {
        Some(t) => RouterData { payment_method_token: Some(t), ..data },
        None => data,
    }
}

/// The attempt after a connector-customer step.
pub open spec fn spec_with_connector_customer(data: RouterData, customer: Option<String>) -> RouterData {
    match customer {
        Some(c) => RouterData { connector_customer: Some(c), ..data },
        None => data,
    }
}

/// The attempt after a response has been recorded: `d2` is a possible result.
/// An attempt that already holds a response keeps it; a success response goes
/// to the flow's decoder; an error response becomes the attempt's normalized
/// error, its status untouched.
pub open spec fn spec_recorded<const T: u8>(data: RouterData, res: Response, d2: RouterData) -> bool {
    if data.response is Some {
        d2 == data
    } else if spec_is_success_status(res.status_code) {
        DummyConnector::<T>::spec_handle(data, res) == Some(d2)
    } else {
        match DummyConnector::<T>::spec_integration(data.spec_flow()) {
            Integration::Custom => match res.payload {
                ResponsePayload::Error(b) => d2 == RouterData {
                    response: Some(
                        Err(
                            ErrorResponse {
                                code: b.error.code,
                                message: b.error.message,
                                reason: b.error.reason,
                                status_code: res.status_code,
                            },
                        ),
                    ),
                    ..data
                },
                _ => false,
            },
            Integration::Default => d2.response matches Some(Err(x)) && x.is_not_implemented()
                && d2 == RouterData { response: d2.response, ..data },
        }
    }
}

/// Whether recording the response fails, and with which error.
pub open spec fn spec_record_error<const T: u8>(data: RouterData, res: Response, e: ConnectorError) -> bool {
    &&& data.response is None
    &&& if spec_is_success_status(res.status_code) {
        DummyConnector::<T>::spec_handle(data, res) is None && DummyConnector::<T>::handle_error(
            data,
            res,
            e,
        )
    } else {
        DummyConnector::<T>::spec_integration(data.spec_flow()) == Integration::Custom
            && !(res.payload is Error) && e == ConnectorError::ResponseDeserializationFailed {
            status_code: res.status_code,
        }
    }
}

/// The orchestrator's hooks for one attempt of a flow against connector `C`.
pub trait Feature<C>: Sized {
    /// Decides the main call of the attempt's flow.
    fn decide_flows(
        &self,
        connector: &C,
        call_connector_action: CallConnectorAction,
        connectors: &Connectors,
    ) -> Result<MainCall, ConnectorError>;

    /// Records the response of the main call in the attempt.
    fn handle_connector_response(&mut self, connector: &C, res: Response) -> Result<
        (),
        ConnectorError,
    >;

    /// Attaches the outcome of the access-token step.
    fn add_access_token(&mut self, token: Option<AccessToken>);

    /// The tokenization step; by default it is skipped and yields no token.
    fn add_payment_method_token(
        &self,
        _connector: &C,
        _tokenization_action: &TokenizationAction,
    ) -> Result<Option<String>, ConnectorError> {
        Ok(None)
    }

    /// The pre-processing step; by default it passes the attempt through.
    fn preprocessing_steps(self, _connector: &C) -> Result<Self, ConnectorError> {
        Ok(self)
    }

    /// The connector-customer step; by default it is skipped and yields no
    /// customer id.
    fn create_connector_customer(&self, _connector: &C) -> Result<Option<String>, ConnectorError> {
        Ok(None)
    }

    /// A request that the flow needs before its main call; by default none.
    fn build_flow_specific_connector_request(
        &mut self,
        _connector: &C,
        _call_connector_action: &CallConnectorAction,
    ) -> Result<Option<Request>, ConnectorError> {
        Ok(None)
    }
}

impl<const T: u8> Feature<DummyConnector<T>> for RouterData {
    /// `Trigger` builds the flow's request (none for a no-op flow), `Avoid`
    /// skips the call, and `HandleResponse` hands its response to the decoder.
    fn decide_flows(
        &self,
        connector: &DummyConnector<T>,
        call_connector_action: CallConnectorAction,
        connectors: &Connectors,
    ) -> (r: Result<MainCall, ConnectorError>)
        ensures
            match call_connector_action {
                CallConnectorAction::Avoid => r == Ok::<MainCall, ConnectorError>(MainCall::Skip),
                CallConnectorAction::HandleResponse(res) => r == Ok::<MainCall, ConnectorError>(
                    MainCall::Decode(res),
                ),
                CallConnectorAction::Trigger => {
                    let base = connectors.dummyconnector.base_url@;
                    match r {
                        Ok(MainCall::Send(q)) => DummyConnector::<T>::spec_build(*self, base)
                            == Some(Some(q.model())),
                        Ok(MainCall::Skip) => DummyConnector::<T>::spec_build(*self, base)
                            == Some(None::<RequestModel>),
                        Ok(MainCall::Decode(_)) => false,
                        Err(e) => DummyConnector::<T>::spec_build(*self, base) is None
                            && DummyConnector::<T>::build_error(*self, base, e),
                    }
                },
            },
    {
        match call_connector_action {
            CallConnectorAction::Avoid => Ok(MainCall::Skip),
            CallConnectorAction::HandleResponse(res) => Ok(MainCall::Decode(res)),
            CallConnectorAction::Trigger => match connector.build_request(self, connectors)? {
                Some(q) => Ok(MainCall::Send(q)),
                None => Ok(MainCall::Skip),
            },
        }
    }

    /// Records a response at most once: an attempt that already holds one is
    /// left as it is.
    fn handle_connector_response(&mut self, connector: &DummyConnector<T>, res: Response) -> (r:
        Result<(), ConnectorError>)
        ensures
            match r {
                Ok(()) => spec_recorded::<T>(*old(self), res, *final(self)),
                Err(e) => spec_record_error::<T>(*old(self), res, e) && *final(self) == *old(
                    self,
                ),
            },
    {
        if self.response.is_some() {
            return Ok(());
        }
        if res.is_success() {
            connector.handle_response(self, res)
        } else {
            let err = connector.get_error_response(self.request.flow(), res)?;
            self.response = Some(Err(err));
            Ok(())
        }
    }

    fn add_access_token(&mut self, token: Option<AccessToken>)
        ensures
            *final(self) == spec_with_access_token(*old(self), token),
    {
        if let Some(t) = token {
            self.access_token = Some(t);
        }
    }

    /// The connector does not tokenize: the step is skipped and yields no
    /// token.
    fn add_payment_method_token(
        &self,
        _connector: &DummyConnector<T>,
        _tokenization_action: &TokenizationAction,
    ) -> (r: Result<Option<String>, ConnectorError>)
        ensures
            r == Ok::<Option<String>, ConnectorError>(None),
    {
        Ok(None)
    }

    /// The connector has no pre-processing step: the attempt passes through
    /// unchanged.
    fn preprocessing_steps(self, _connector: &DummyConnector<T>) -> (r: Result<Self, ConnectorError>)
        ensures
            r == Ok::<Self, ConnectorError>(self),
    {
        Ok(self)
    }

    /// The connector does not create customers: the step is skipped and
    /// yields no customer id.
    fn create_connector_customer(&self, _connector: &DummyConnector<T>) -> (r: Result<
        Option<String>,
        ConnectorError,
    >)
        ensures
            r == Ok::<Option<String>, ConnectorError>(None),
    {
        Ok(None)
    }

    /// No flow of this connector needs a request before its main call: none
    /// is built and the attempt is left as it was.
    fn build_flow_specific_connector_request(
        &mut self,
        _connector: &DummyConnector<T>,
        _call_connector_action: &CallConnectorAction,
    ) -> (r: Result<Option<Request>, ConnectorError>)
        ensures
            r == Ok::<Option<Request>, ConnectorError>(None),
            *final(self) == *old(self),
    {
        Ok(None)
    }
}

pub open spec fn spec_acquired_access_token(step: RouterData) -> Option<AccessToken> {
    match step.response {
        Some(Ok(FlowResponse::AccessToken(t))) => Some(t),
        _ => None,
    }
}

/// The token that an access-token step acquired, if its response holds one.
pub fn acquired_access_token(step: RouterData) -> (r: Option<AccessToken>)
    ensures
        r == spec_acquired_access_token(step),
{
    match step.response {
        Some(Ok(FlowResponse::AccessToken(t))) => Some(t),
        _ => None,
    }
}

/// Attaches the outcome of the tokenization step.
pub fn add_payment_method_token(data: &mut RouterData, token: Option<String>)
    ensures
        *final(data) == spec_with_payment_method_token(*old(data), token),
{
    if let Some(t) = token {
        data.payment_method_token = Some(t);
    }
}

/// Attaches the outcome of the connector-customer step.
pub fn add_connector_customer(data: &mut RouterData, customer: Option<String>)
    ensures
        *final(data) == spec_with_connector_customer(*old(data), customer),
{
    if let Some(c) = customer {
        data.connector_customer = Some(c);
    }
}

/// What the caller supplies to open an attempt.
#[derive(Clone, Debug, PartialEq, Eq)]
pub struct PaymentData {
    pub attempt_id: String,
    pub amount: i64,
    pub currency: Currency,
    pub request: FlowRequest,
}

/// Builds the attempt record of a flow right before it is dispatched.
pub trait ConstructFlowSpecificData {
    fn construct_router_data(
        self,
        connector_id: &str,
        merchant_id: &str,
        connector_auth_type: ConnectorAuthType,
    ) -> RouterData;
}

impl ConstructFlowSpecificData for PaymentData {
    /// A fresh attempt: status `Started`, no response, no token, no customer.
    fn construct_router_data(
        self,
        connector_id: &str,
        merchant_id: &str,
        connector_auth_type: ConnectorAuthType,
    ) -> (r: RouterData)
        ensures
            r.connector@ == connector_id@,
            r.merchant_id@ == merchant_id@,
            r.attempt_id == self.attempt_id,
            r.amount == self.amount,
            r.currency == self.currency,
            r.request == self.request,
            r.connector_auth_type == connector_auth_type,
            r.status == AttemptStatus::Started,
            r.response is None,
            r.access_token is None,
            r.payment_method_token is None,
            r.connector_customer is None,
    {
        RouterData {
            merchant_id: merchant_id.to_owned(),
            connector: connector_id.to_owned(),
            attempt_id: self.attempt_id,
            status: AttemptStatus::Started,
            amount: self.amount,
            currency: self.currency,
            connector_auth_type,
            access_token: None,
            payment_method_token: None,
            connector_customer: None,
            request: self.request,
            response: None,
        }
    }
}

/// Recording a response is applied at most once: a second recording never
/// changes the attempt's status again, an attempt that holds a response keeps
/// it, and a flow that the connector provides holds a response after the
/// first recording.
pub proof fn lemma_record_at_most_once<const T: u8>(
    d: RouterData,
    r1: Response,
    r2: Response,
    d1: RouterData,
    d2: RouterData,
)
    requires
        spec_recorded::<T>(d, r1, d1),
        spec_recorded::<T>(d1, r2, d2),
    ensures
        d2.status == d1.status,
        d1.response is Some ==> d2 == d1,
        d.response is None && DummyConnector::<T>::spec_integration(d.spec_flow())
            == Integration::Custom ==> d1.response is Some,
{
}

/// An authorization whose request builds, answered with a 2xx body that
/// matches it, is decoded into the attempt: the upstream id is kept, the
/// status follows the reported one (`Charged` on success), and the status is
/// never left at `Started`.
pub proof fn lemma_authorize_round_trip<const T: u8>(
    d: RouterData,
    base: Seq<char>,
    q: RequestModel,
    res: Response,
)
    requires
        d.request is Authorize,
        d.response is None,
        DummyConnector::<T>::spec_build(d, base) == Some(Some(q)),
        spec_is_success_status(res.status_code),
        res.payload matches ResponsePayload::Payment(p) && q.3 matches Some(
            RequestBody::Payment(b),
        ) && p.amount == b.amount,
    ensures
        res.payload matches ResponsePayload::Payment(p) && spec_recorded::<T>(
            d,
            res,
            RouterData {
                status: p.status.spec_attempt_status(),
                response: Some(
                    Ok(
                        FlowResponse::Payments(
                            PaymentsResponseData::TransactionResponse {
                                resource_id: ResponseId::ConnectorTransactionId(p.id),
                            },
                        ),
                    ),
                ),
                ..d
            },
        ) && (p.status == DummyConnectorPaymentStatus::Succeeded ==> p.status.spec_attempt_status()
            == AttemptStatus::Charged) && p.status.spec_attempt_status() != AttemptStatus::Started,
{
}

} // verus!
