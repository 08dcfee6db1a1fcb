//! Remote changes: what the fleet may ask, and what it is told.
use crate::json::{Json, JsonView};
use crate::policy::{Policy, PolicyView, Resources};
use crate::values::{
    content, contents, copy_list, copy_option, lists_alike, options_alike, Plain,
};
use vstd::prelude::*;

verus! {

/// What a remote request asks of the worker's storage.
#[derive(Debug)]
pub enum ConfigurationOperation {
    StoragePreview { selections: Json, options: Json },
    StorageApply { plan: Json },
    StorageRecovery { enabled: bool },
    StorageRetry,
}

/// The content of a `ConfigurationOperation`.
#[verifier::ext_equal]
pub enum ConfigurationOperationView {
    StoragePreview { selections: JsonView, options: JsonView },
    StorageApply { plan: JsonView },
    StorageRecovery { enabled: bool },
    StorageRetry,
}

impl View for ConfigurationOperation {
    type V = ConfigurationOperationView;

    open spec fn view(&self) -> ConfigurationOperationView {
        match self {
            ConfigurationOperation::StoragePreview { selections, options } => {
                ConfigurationOperationView::StoragePreview {
                    selections: selections@,
                    options: options@,
                }
            },
            ConfigurationOperation::StorageApply { plan } => {
                ConfigurationOperationView::StorageApply { plan: plan@ }
            },
            ConfigurationOperation::StorageRecovery { enabled } => {
                ConfigurationOperationView::StorageRecovery { enabled: *enabled }
            },
            ConfigurationOperation::StorageRetry => ConfigurationOperationView::StorageRetry,
        }
    }
}

impl Plain for ConfigurationOperation {
    fn duplicate(&self) -> (r: Self) {
        match self {
            ConfigurationOperation::StoragePreview { selections, options } => {
                ConfigurationOperation::StoragePreview {
                    selections: selections.duplicate(),
                    options: options.duplicate(),
                }
            },
            ConfigurationOperation::StorageApply { plan } => {
                ConfigurationOperation::StorageApply { plan: plan.duplicate() }
            },
            ConfigurationOperation::StorageRecovery { enabled } => {
                ConfigurationOperation::StorageRecovery { enabled: *enabled }
            },
            ConfigurationOperation::StorageRetry => ConfigurationOperation::StorageRetry,
        }
    }

    fn alike(&self, other: &Self) -> (r: bool) {
        match (self, other) {
            (
                ConfigurationOperation::StoragePreview { selections, options },
                ConfigurationOperation::StoragePreview { selections: s, options: o },
            ) => selections.alike(s) && options.alike(o),
            (
                ConfigurationOperation::StorageApply { plan },
                ConfigurationOperation::StorageApply { plan: p },
            ) => plan.alike(p),
            (
                ConfigurationOperation::StorageRecovery { enabled },
                ConfigurationOperation::StorageRecovery { enabled: e },
            ) => *enabled == *e,
            (ConfigurationOperation::StorageRetry, ConfigurationOperation::StorageRetry) => true,
            _ => false,
        }
    }
}

/// A change that the fleet asks of this computer.
#[derive(Debug)]
pub struct ConfigurationEdit {
    pub request_id: String,
    pub expected_revision: u64,
    pub policy: Policy,
    pub operation: Option<ConfigurationOperation>,
}

/// The content of a `ConfigurationEdit`.
#[verifier::ext_equal]
pub struct ConfigurationEditView {
    pub request_id: Seq<char>,
    pub expected_revision: u64,
    pub policy: PolicyView,
    pub operation: Option<ConfigurationOperationView>,
}

impl View for ConfigurationEdit {
    type V = ConfigurationEditView;

    open spec fn view(&self) -> ConfigurationEditView {
        ConfigurationEditView {
            request_id: self.request_id@,
            expected_revision: self.expected_revision,
            policy: self.policy@,
            operation: content(self.operation),
        }
    }
}

impl Plain for ConfigurationEdit {
    fn duplicate(&self) -> (r: Self) {
        ConfigurationEdit {
            request_id: self.request_id.clone(),
            expected_revision: self.expected_revision,
            policy: self.policy.duplicate(),
            operation: copy_option(&self.operation),
        }
    }

    fn alike(&self, other: &Self) -> (r: bool) {
        self.request_id.alike(&other.request_id)
            && self.expected_revision == other.expected_revision
            && self.policy.alike(&other.policy)
            && options_alike(&self.operation, &other.operation)
    }
}

impl Clone for ConfigurationEdit {
    fn clone(&self) -> (r: Self)
        ensures
            r@ == self@,
    {
        self.duplicate()
    }
}

/// A remote request as it was received.
#[derive(Debug)]
pub struct ConfigurationCommand {
    pub edit: ConfigurationEdit,
}

/// The content of a `ConfigurationCommand`.
#[verifier::ext_equal]
pub struct ConfigurationCommandView {
    pub edit: ConfigurationEditView,
}

impl View for ConfigurationCommand {
    type V = ConfigurationCommandView;

    open spec fn view(&self) -> ConfigurationCommandView {
        ConfigurationCommandView {
            edit: self.edit@,
        }
    }
}

impl Plain for ConfigurationCommand {
    fn duplicate(&self) -> (r: Self) {
        ConfigurationCommand {
            edit: self.edit.duplicate(),
        }
    }

    fn alike(&self, other: &Self) -> (r: bool) {
        self.edit.alike(&other.edit)
    }
}

impl Clone for ConfigurationCommand {
    fn clone(&self) -> (r: Self)
        ensures
            r@ == self@,
    {
        self.duplicate()
    }
}

/// What became of a remote request.
#[derive(Debug)]
pub struct ConfigurationReceipt {
    pub request_id: String,
    pub status: String,
    pub revision: u64,
    pub at: String,
    pub effective_policy: Option<Policy>,
    pub effective_resources: Option<Resources>,
    pub effective_storage: Option<Json>,
    pub result: Option<Json>,
    pub error: Option<String>,
}

/// The content of a `ConfigurationReceipt`.
#[verifier::ext_equal]
pub struct ConfigurationReceiptView {
    pub request_id: Seq<char>,
    pub status: Seq<char>,
    pub revision: u64,
    pub at: Seq<char>,
    pub effective_policy: Option<PolicyView>,
    pub effective_resources: Option<Resources>,
    pub effective_storage: Option<JsonView>,
    pub result: Option<JsonView>,
    pub error: Option<Seq<char>>,
}

impl View for ConfigurationReceipt {
    type V = ConfigurationReceiptView;

    open spec fn view(&self) -> ConfigurationReceiptView {
        ConfigurationReceiptView {
            request_id: self.request_id@,
            status: self.status@,
            revision: self.revision,
            at: self.at@,
            effective_policy: content(self.effective_policy),
            effective_resources: self.effective_resources,
            effective_storage: content(self.effective_storage),
            result: content(self.result),
            error: content(self.error),
        }
    }
}

impl Plain for ConfigurationReceipt {
    fn duplicate(&self) -> (r: Self) {
        ConfigurationReceipt {
            request_id: self.request_id.clone(),
            status: self.status.clone(),
            revision: self.revision,
            at: self.at.clone(),
            effective_policy: copy_option(&self.effective_policy),
            effective_resources: self.effective_resources,
            effective_storage: copy_option(&self.effective_storage),
            result: copy_option(&self.result),
            error: copy_option(&self.error),
        }
    }

    fn alike(&self, other: &Self) -> (r: bool) {
        self.request_id.alike(&other.request_id)
            && self.status.alike(&other.status)
            && self.revision == other.revision
            && self.at.alike(&other.at)
            && options_alike(&self.effective_policy, &other.effective_policy)
            && self.effective_resources == other.effective_resources
            && options_alike(&self.effective_storage, &other.effective_storage)
            && options_alike(&self.result, &other.result)
            && options_alike(&self.error, &other.error)
    }
}

impl Clone for ConfigurationReceipt {
    fn clone(&self) -> (r: Self)
        ensures
            r@ == self@,
    {
        self.duplicate()
    }
}

/// The owner's consent to remote changes, and the requests.
#[derive(Debug)]
pub struct RemoteConfiguration {
    pub consent: bool,
    /// Rises with every change of what the owner sees.
    pub revision: u64,
    pub pending: Option<ConfigurationCommand>,
    pub receipts: Vec<ConfigurationReceipt>,
    /// The revision at which the request that is being carried out stands.
    pub execution_revision: Option<u64>,
    pub storage_started: bool,
    pub applying: bool,
    pub repair_required: bool,
}

/// The content of a `RemoteConfiguration`.
#[verifier::ext_equal]
pub struct RemoteConfigurationView {
    pub consent: bool,
    pub revision: u64,
    pub pending: Option<ConfigurationCommandView>,
    pub receipts: Seq<ConfigurationReceiptView>,
    pub execution_revision: Option<u64>,
    pub storage_started: bool,
    pub applying: bool,
    pub repair_required: bool,
}

impl View for RemoteConfiguration {
    type V = RemoteConfigurationView;

    open spec fn view(&self) -> RemoteConfigurationView {
        RemoteConfigurationView {
            consent: self.consent,
            revision: self.revision,
            pending: content(self.pending),
            receipts: contents(self.receipts@),
            execution_revision: self.execution_revision,
            storage_started: self.storage_started,
            applying: self.applying,
            repair_required: self.repair_required,
        }
    }
}

impl Plain for RemoteConfiguration {
    fn duplicate(&self) -> (r: Self) {
        RemoteConfiguration {
            consent: self.consent,
            revision: self.revision,
            pending: copy_option(&self.pending),
            receipts: copy_list(self.receipts.as_slice()),
            execution_revision: self.execution_revision,
            storage_started: self.storage_started,
            applying: self.applying,
            repair_required: self.repair_required,
        }
    }

    fn alike(&self, other: &Self) -> (r: bool) {
        self.consent == other.consent
            && self.revision == other.revision
            && options_alike(&self.pending, &other.pending)
            && lists_alike(self.receipts.as_slice(), other.receipts.as_slice())
            && self.execution_revision == other.execution_revision
            && self.storage_started == other.storage_started
            && self.applying == other.applying
            && self.repair_required == other.repair_required
    }
}

impl Clone for RemoteConfiguration {
    fn clone(&self) -> (r: Self)
        ensures
            r@ == self@,
    {
        self.duplicate()
    }
}

/// No consent, no request.
pub open spec fn no_remote() -> RemoteConfigurationView {
    RemoteConfigurationView {
        consent: false,
        revision: 0,
        pending: None,
        receipts: Seq::empty(),
        execution_revision: None,
        storage_started: false,
        applying: false,
        repair_required: false,
    }
}

impl Default for RemoteConfiguration {
    fn default() -> (r: Self)
        ensures
            r@ == no_remote(),
    {
        let r = RemoteConfiguration {
            consent: false,
            revision: 0,
            pending: None,
            receipts: Vec::new(),
            execution_revision: None,
            storage_started: false,
            applying: false,
            repair_required: false,
        };
        assert(r@.receipts == Seq::<ConfigurationReceiptView>::empty());
        r
    }
}

} // verus!
