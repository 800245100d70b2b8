//! The registry of all rules, and running the enabled ones.
use vstd::prelude::*;

use crate::config::{rule_enabled, Config};
use crate::diagnostic::{lemma_models_add, models, Category, Diagnostic, DiagnosticModel};
use crate::rules::{all_tagged, FileAnalysis, ProjectContext, Rule};
use crate::text::has_prefix;

use crate::rules::security;
use crate::rules::performance;
use crate::rules::correctness;
use crate::rules::schema;
use crate::rules::architecture;
use crate::rules::configuration;
use crate::rules::client;

verus! {

/// One of the rules that the tool runs.
#[derive(Debug, Clone, Copy, PartialEq, Eq, Structural)]
pub enum RegisteredRule {
    MissingArgValidators,
    MissingReturnValidators,
    MissingAuthCheck,
    InternalApiMisuse,
    HardcodedSecrets,
    EnvNotGitignored,
    SpoofableAccessControl,
    MissingTableId,
    MissingHttpAuth,
    ConditionalFunctionExport,
    GenericMutationArgs,
    OverlyBroadPatch,
    HttpMissingCors,
    UnboundedCollect,
    FilterWithoutIndex,
    DateNowInQuery,
    LoopRunMutation,
    SequentialRunCalls,
    UnnecessaryRunAction,
    HelperVsRun,
    MissingIndexOnForeignKey,
    ActionFromClient,
    CollectThenFilter,
    LargeDocumentWrite,
    NoPaginationForList,
    UnwaitedPromise,
    OldFunctionSyntax,
    DbInAction,
    DeprecatedApi,
    WrongRuntimeImport,
    DirectFunctionRef,
    MissingUnique,
    QuerySideEffect,
    MutationInQuery,
    CronUsesPublicApi,
    NodeQueryMutation,
    SchedulerReturnIgnored,
    NonDeterministicInQuery,
    ReplaceVsPatch,
    GeneratedCodeModified,
    MissingSchema,
    DeepNesting,
    ArrayRelationships,
    RedundantIndex,
    TooManyIndexes,
    MissingSearchIndexFilter,
    OptionalFieldNoDefaultHandling,
    MissingIndexForQuery,
    LargeHandler,
    MonolithicFile,
    DuplicatedAuth,
    ActionWithoutScheduling,
    NoConvexError,
    MixedFunctionTypes,
    NoHelperFunctions,
    DeepFunctionChain,
    MissingConvexJson,
    MissingAuthConfig,
    MissingGeneratedCode,
    OutdatedNodeVersion,
    MissingTsconfig,
    MutationInRender,
    UnhandledLoadingState,
    ActionInsteadOfMutation,
    MissingConvexProvider,
}

impl Rule for RegisteredRule {
    open spec fn spec_id(&self) -> Seq<char> {
        match *self {
            RegisteredRule::MissingArgValidators => security::MissingArgValidators.spec_id(),
            RegisteredRule::MissingReturnValidators => security::MissingReturnValidators.spec_id(),
            RegisteredRule::MissingAuthCheck => security::MissingAuthCheck.spec_id(),
            RegisteredRule::InternalApiMisuse => security::InternalApiMisuse.spec_id(),
            RegisteredRule::HardcodedSecrets => security::HardcodedSecrets.spec_id(),
            RegisteredRule::EnvNotGitignored => security::EnvNotGitignored.spec_id(),
            RegisteredRule::SpoofableAccessControl => security::SpoofableAccessControl.spec_id(),
            RegisteredRule::MissingTableId => security::MissingTableId.spec_id(),
            RegisteredRule::MissingHttpAuth => security::MissingHttpAuth.spec_id(),
            RegisteredRule::ConditionalFunctionExport => security::ConditionalFunctionExport.spec_id(),
            RegisteredRule::GenericMutationArgs => security::GenericMutationArgs.spec_id(),
            RegisteredRule::OverlyBroadPatch => security::OverlyBroadPatch.spec_id(),
            RegisteredRule::HttpMissingCors => security::HttpMissingCors.spec_id(),
            RegisteredRule::UnboundedCollect => performance::UnboundedCollect.spec_id(),
            RegisteredRule::FilterWithoutIndex => performance::FilterWithoutIndex.spec_id(),
            RegisteredRule::DateNowInQuery => performance::DateNowInQuery.spec_id(),
            RegisteredRule::LoopRunMutation => performance::LoopRunMutation.spec_id(),
            RegisteredRule::SequentialRunCalls => performance::SequentialRunCalls.spec_id(),
            RegisteredRule::UnnecessaryRunAction => performance::UnnecessaryRunAction.spec_id(),
            RegisteredRule::HelperVsRun => performance::HelperVsRun.spec_id(),
            RegisteredRule::MissingIndexOnForeignKey => performance::MissingIndexOnForeignKey.spec_id(),
            RegisteredRule::ActionFromClient => performance::ActionFromClient.spec_id(),
            RegisteredRule::CollectThenFilter => performance::CollectThenFilter.spec_id(),
            RegisteredRule::LargeDocumentWrite => performance::LargeDocumentWrite.spec_id(),
            RegisteredRule::NoPaginationForList => performance::NoPaginationForList.spec_id(),
            RegisteredRule::UnwaitedPromise => correctness::UnwaitedPromise.spec_id(),
            RegisteredRule::OldFunctionSyntax => correctness::OldFunctionSyntax.spec_id(),
            RegisteredRule::DbInAction => correctness::DbInAction.spec_id(),
            RegisteredRule::DeprecatedApi => correctness::DeprecatedApi.spec_id(),
            RegisteredRule::WrongRuntimeImport => correctness::WrongRuntimeImport.spec_id(),
            RegisteredRule::DirectFunctionRef => correctness::DirectFunctionRef.spec_id(),
            RegisteredRule::MissingUnique => correctness::MissingUnique.spec_id(),
            RegisteredRule::QuerySideEffect => correctness::QuerySideEffect.spec_id(),
            RegisteredRule::MutationInQuery => correctness::MutationInQuery.spec_id(),
            RegisteredRule::CronUsesPublicApi => correctness::CronUsesPublicApi.spec_id(),
            RegisteredRule::NodeQueryMutation => correctness::NodeQueryMutation.spec_id(),
            RegisteredRule::SchedulerReturnIgnored => correctness::SchedulerReturnIgnored.spec_id(),
            RegisteredRule::NonDeterministicInQuery => correctness::NonDeterministicInQuery.spec_id(),
            RegisteredRule::ReplaceVsPatch => correctness::ReplaceVsPatch.spec_id(),
            RegisteredRule::GeneratedCodeModified => correctness::GeneratedCodeModified.spec_id(),
            RegisteredRule::MissingSchema => schema::MissingSchema.spec_id(),
            RegisteredRule::DeepNesting => schema::DeepNesting.spec_id(),
            RegisteredRule::ArrayRelationships => schema::ArrayRelationships.spec_id(),
            RegisteredRule::RedundantIndex => schema::RedundantIndex.spec_id(),
            RegisteredRule::TooManyIndexes => schema::TooManyIndexes.spec_id(),
            RegisteredRule::MissingSearchIndexFilter => schema::MissingSearchIndexFilter.spec_id(),
            RegisteredRule::OptionalFieldNoDefaultHandling => schema::OptionalFieldNoDefaultHandling.spec_id(),
            RegisteredRule::MissingIndexForQuery => schema::MissingIndexForQuery.spec_id(),
            RegisteredRule::LargeHandler => architecture::LargeHandler.spec_id(),
            RegisteredRule::MonolithicFile => architecture::MonolithicFile.spec_id(),
            RegisteredRule::DuplicatedAuth => architecture::DuplicatedAuth.spec_id(),
            RegisteredRule::ActionWithoutScheduling => architecture::ActionWithoutScheduling.spec_id(),
            RegisteredRule::NoConvexError => architecture::NoConvexError.spec_id(),
            RegisteredRule::MixedFunctionTypes => architecture::MixedFunctionTypes.spec_id(),
            RegisteredRule::NoHelperFunctions => architecture::NoHelperFunctions.spec_id(),
            RegisteredRule::DeepFunctionChain => architecture::DeepFunctionChain.spec_id(),
            RegisteredRule::MissingConvexJson => configuration::MissingConvexJson.spec_id(),
            RegisteredRule::MissingAuthConfig => configuration::MissingAuthConfig.spec_id(),
            RegisteredRule::MissingGeneratedCode => configuration::MissingGeneratedCode.spec_id(),
            RegisteredRule::OutdatedNodeVersion => configuration::OutdatedNodeVersion.spec_id(),
            RegisteredRule::MissingTsconfig => configuration::MissingTsconfig.spec_id(),
            RegisteredRule::MutationInRender => client::MutationInRender.spec_id(),
            RegisteredRule::UnhandledLoadingState => client::UnhandledLoadingState.spec_id(),
            RegisteredRule::ActionInsteadOfMutation => client::ActionInsteadOfMutation.spec_id(),
            RegisteredRule::MissingConvexProvider => client::MissingConvexProvider.spec_id(),
        }
    }

    open spec fn spec_category(&self) -> Category {
        match *self {
            RegisteredRule::MissingArgValidators => security::MissingArgValidators.spec_category(),
            RegisteredRule::MissingReturnValidators => security::MissingReturnValidators.spec_category(),
            RegisteredRule::MissingAuthCheck => security::MissingAuthCheck.spec_category(),
            RegisteredRule::InternalApiMisuse => security::InternalApiMisuse.spec_category(),
            RegisteredRule::HardcodedSecrets => security::HardcodedSecrets.spec_category(),
            RegisteredRule::EnvNotGitignored => security::EnvNotGitignored.spec_category(),
            RegisteredRule::SpoofableAccessControl => security::SpoofableAccessControl.spec_category(),
            RegisteredRule::MissingTableId => security::MissingTableId.spec_category(),
            RegisteredRule::MissingHttpAuth => security::MissingHttpAuth.spec_category(),
            RegisteredRule::ConditionalFunctionExport => security::ConditionalFunctionExport.spec_category(),
            RegisteredRule::GenericMutationArgs => security::GenericMutationArgs.spec_category(),
            RegisteredRule::OverlyBroadPatch => security::OverlyBroadPatch.spec_category(),
            RegisteredRule::HttpMissingCors => security::HttpMissingCors.spec_category(),
            RegisteredRule::UnboundedCollect => performance::UnboundedCollect.spec_category(),
            RegisteredRule::FilterWithoutIndex => performance::FilterWithoutIndex.spec_category(),
            RegisteredRule::DateNowInQuery => performance::DateNowInQuery.spec_category(),
            RegisteredRule::LoopRunMutation => performance::LoopRunMutation.spec_category(),
            RegisteredRule::SequentialRunCalls => performance::SequentialRunCalls.spec_category(),
            RegisteredRule::UnnecessaryRunAction => performance::UnnecessaryRunAction.spec_category(),
            RegisteredRule::HelperVsRun => performance::HelperVsRun.spec_category(),
            RegisteredRule::MissingIndexOnForeignKey => performance::MissingIndexOnForeignKey.spec_category(),
            RegisteredRule::ActionFromClient => performance::ActionFromClient.spec_category(),
            RegisteredRule::CollectThenFilter => performance::CollectThenFilter.spec_category(),
            RegisteredRule::LargeDocumentWrite => performance::LargeDocumentWrite.spec_category(),
            RegisteredRule::NoPaginationForList => performance::NoPaginationForList.spec_category(),
            RegisteredRule::UnwaitedPromise => correctness::UnwaitedPromise.spec_category(),
            RegisteredRule::OldFunctionSyntax => correctness::OldFunctionSyntax.spec_category(),
            RegisteredRule::DbInAction => correctness::DbInAction.spec_category(),
            RegisteredRule::DeprecatedApi => correctness::DeprecatedApi.spec_category(),
            RegisteredRule::WrongRuntimeImport => correctness::WrongRuntimeImport.spec_category(),
            RegisteredRule::DirectFunctionRef => correctness::DirectFunctionRef.spec_category(),
            RegisteredRule::MissingUnique => correctness::MissingUnique.spec_category(),
            RegisteredRule::QuerySideEffect => correctness::QuerySideEffect.spec_category(),
            RegisteredRule::MutationInQuery => correctness::MutationInQuery.spec_category(),
            RegisteredRule::CronUsesPublicApi => correctness::CronUsesPublicApi.spec_category(),
            RegisteredRule::NodeQueryMutation => correctness::NodeQueryMutation.spec_category(),
            RegisteredRule::SchedulerReturnIgnored => correctness::SchedulerReturnIgnored.spec_category(),
            RegisteredRule::NonDeterministicInQuery => correctness::NonDeterministicInQuery.spec_category(),
            RegisteredRule::ReplaceVsPatch => correctness::ReplaceVsPatch.spec_category(),
            RegisteredRule::GeneratedCodeModified => correctness::GeneratedCodeModified.spec_category(),
            RegisteredRule::MissingSchema => schema::MissingSchema.spec_category(),
            RegisteredRule::DeepNesting => schema::DeepNesting.spec_category(),
            RegisteredRule::ArrayRelationships => schema::ArrayRelationships.spec_category(),
            RegisteredRule::RedundantIndex => schema::RedundantIndex.spec_category(),
            RegisteredRule::TooManyIndexes => schema::TooManyIndexes.spec_category(),
            RegisteredRule::MissingSearchIndexFilter => schema::MissingSearchIndexFilter.spec_category(),
            RegisteredRule::OptionalFieldNoDefaultHandling => schema::OptionalFieldNoDefaultHandling.spec_category(),
            RegisteredRule::MissingIndexForQuery => schema::MissingIndexForQuery.spec_category(),
            RegisteredRule::LargeHandler => architecture::LargeHandler.spec_category(),
            RegisteredRule::MonolithicFile => architecture::MonolithicFile.spec_category(),
            RegisteredRule::DuplicatedAuth => architecture::DuplicatedAuth.spec_category(),
            RegisteredRule::ActionWithoutScheduling => architecture::ActionWithoutScheduling.spec_category(),
            RegisteredRule::NoConvexError => architecture::NoConvexError.spec_category(),
            RegisteredRule::MixedFunctionTypes => architecture::MixedFunctionTypes.spec_category(),
            RegisteredRule::NoHelperFunctions => architecture::NoHelperFunctions.spec_category(),
            RegisteredRule::DeepFunctionChain => architecture::DeepFunctionChain.spec_category(),
            RegisteredRule::MissingConvexJson => configuration::MissingConvexJson.spec_category(),
            RegisteredRule::MissingAuthConfig => configuration::MissingAuthConfig.spec_category(),
            RegisteredRule::MissingGeneratedCode => configuration::MissingGeneratedCode.spec_category(),
            RegisteredRule::OutdatedNodeVersion => configuration::OutdatedNodeVersion.spec_category(),
            RegisteredRule::MissingTsconfig => configuration::MissingTsconfig.spec_category(),
            RegisteredRule::MutationInRender => client::MutationInRender.spec_category(),
            RegisteredRule::UnhandledLoadingState => client::UnhandledLoadingState.spec_category(),
            RegisteredRule::ActionInsteadOfMutation => client::ActionInsteadOfMutation.spec_category(),
            RegisteredRule::MissingConvexProvider => client::MissingConvexProvider.spec_category(),
        }
    }

    open spec fn spec_check(&self, analysis: FileAnalysis) -> Seq<DiagnosticModel> {
        match *self {
            RegisteredRule::MissingArgValidators => security::MissingArgValidators.spec_check(analysis),
            RegisteredRule::MissingReturnValidators => security::MissingReturnValidators.spec_check(analysis),
            RegisteredRule::MissingAuthCheck => security::MissingAuthCheck.spec_check(analysis),
            RegisteredRule::InternalApiMisuse => security::InternalApiMisuse.spec_check(analysis),
            RegisteredRule::HardcodedSecrets => security::HardcodedSecrets.spec_check(analysis),
            RegisteredRule::EnvNotGitignored => security::EnvNotGitignored.spec_check(analysis),
            RegisteredRule::SpoofableAccessControl => security::SpoofableAccessControl.spec_check(analysis),
            RegisteredRule::MissingTableId => security::MissingTableId.spec_check(analysis),
            RegisteredRule::MissingHttpAuth => security::MissingHttpAuth.spec_check(analysis),
            RegisteredRule::ConditionalFunctionExport => security::ConditionalFunctionExport.spec_check(analysis),
            RegisteredRule::GenericMutationArgs => security::GenericMutationArgs.spec_check(analysis),
            RegisteredRule::OverlyBroadPatch => security::OverlyBroadPatch.spec_check(analysis),
            RegisteredRule::HttpMissingCors => security::HttpMissingCors.spec_check(analysis),
            RegisteredRule::UnboundedCollect => performance::UnboundedCollect.spec_check(analysis),
            RegisteredRule::FilterWithoutIndex => performance::FilterWithoutIndex.spec_check(analysis),
            RegisteredRule::DateNowInQuery => performance::DateNowInQuery.spec_check(analysis),
            RegisteredRule::LoopRunMutation => performance::LoopRunMutation.spec_check(analysis),
            RegisteredRule::SequentialRunCalls => performance::SequentialRunCalls.spec_check(analysis),
            RegisteredRule::UnnecessaryRunAction => performance::UnnecessaryRunAction.spec_check(analysis),
            RegisteredRule::HelperVsRun => performance::HelperVsRun.spec_check(analysis),
            RegisteredRule::MissingIndexOnForeignKey => performance::MissingIndexOnForeignKey.spec_check(analysis),
            RegisteredRule::ActionFromClient => performance::ActionFromClient.spec_check(analysis),
            RegisteredRule::CollectThenFilter => performance::CollectThenFilter.spec_check(analysis),
            RegisteredRule::LargeDocumentWrite => performance::LargeDocumentWrite.spec_check(analysis),
            RegisteredRule::NoPaginationForList => performance::NoPaginationForList.spec_check(analysis),
            RegisteredRule::UnwaitedPromise => correctness::UnwaitedPromise.spec_check(analysis),
            RegisteredRule::OldFunctionSyntax => correctness::OldFunctionSyntax.spec_check(analysis),
            RegisteredRule::DbInAction => correctness::DbInAction.spec_check(analysis),
            RegisteredRule::DeprecatedApi => correctness::DeprecatedApi.spec_check(analysis),
            RegisteredRule::WrongRuntimeImport => correctness::WrongRuntimeImport.spec_check(analysis),
            RegisteredRule::DirectFunctionRef => correctness::DirectFunctionRef.spec_check(analysis),
            RegisteredRule::MissingUnique => correctness::MissingUnique.spec_check(analysis),
            RegisteredRule::QuerySideEffect => correctness::QuerySideEffect.spec_check(analysis),
            RegisteredRule::MutationInQuery => correctness::MutationInQuery.spec_check(analysis),
            RegisteredRule::CronUsesPublicApi => correctness::CronUsesPublicApi.spec_check(analysis),
            RegisteredRule::NodeQueryMutation => correctness::NodeQueryMutation.spec_check(analysis),
            RegisteredRule::SchedulerReturnIgnored => correctness::SchedulerReturnIgnored.spec_check(analysis),
            RegisteredRule::NonDeterministicInQuery => correctness::NonDeterministicInQuery.spec_check(analysis),
            RegisteredRule::ReplaceVsPatch => correctness::ReplaceVsPatch.spec_check(analysis),
            RegisteredRule::GeneratedCodeModified => correctness::GeneratedCodeModified.spec_check(analysis),
            RegisteredRule::MissingSchema => schema::MissingSchema.spec_check(analysis),
            RegisteredRule::DeepNesting => schema::DeepNesting.spec_check(analysis),
            RegisteredRule::ArrayRelationships => schema::ArrayRelationships.spec_check(analysis),
            RegisteredRule::RedundantIndex => schema::RedundantIndex.spec_check(analysis),
            RegisteredRule::TooManyIndexes => schema::TooManyIndexes.spec_check(analysis),
            RegisteredRule::MissingSearchIndexFilter => schema::MissingSearchIndexFilter.spec_check(analysis),
            RegisteredRule::OptionalFieldNoDefaultHandling => schema::OptionalFieldNoDefaultHandling.spec_check(analysis),
            RegisteredRule::MissingIndexForQuery => schema::MissingIndexForQuery.spec_check(analysis),
            RegisteredRule::LargeHandler => architecture::LargeHandler.spec_check(analysis),
            RegisteredRule::MonolithicFile => architecture::MonolithicFile.spec_check(analysis),
            RegisteredRule::DuplicatedAuth => architecture::DuplicatedAuth.spec_check(analysis),
            RegisteredRule::ActionWithoutScheduling => architecture::ActionWithoutScheduling.spec_check(analysis),
            RegisteredRule::NoConvexError => architecture::NoConvexError.spec_check(analysis),
            RegisteredRule::MixedFunctionTypes => architecture::MixedFunctionTypes.spec_check(analysis),
            RegisteredRule::NoHelperFunctions => architecture::NoHelperFunctions.spec_check(analysis),
            RegisteredRule::DeepFunctionChain => architecture::DeepFunctionChain.spec_check(analysis),
            RegisteredRule::MissingConvexJson => configuration::MissingConvexJson.spec_check(analysis),
            RegisteredRule::MissingAuthConfig => configuration::MissingAuthConfig.spec_check(analysis),
            RegisteredRule::MissingGeneratedCode => configuration::MissingGeneratedCode.spec_check(analysis),
            RegisteredRule::OutdatedNodeVersion => configuration::OutdatedNodeVersion.spec_check(analysis),
            RegisteredRule::MissingTsconfig => configuration::MissingTsconfig.spec_check(analysis),
            RegisteredRule::MutationInRender => client::MutationInRender.spec_check(analysis),
            RegisteredRule::UnhandledLoadingState => client::UnhandledLoadingState.spec_check(analysis),
            RegisteredRule::ActionInsteadOfMutation => client::ActionInsteadOfMutation.spec_check(analysis),
            RegisteredRule::MissingConvexProvider => client::MissingConvexProvider.spec_check(analysis),
        }
    }

    open spec fn spec_check_project(&self, ctx: ProjectContext) -> Seq<DiagnosticModel> {
        match *self {
            RegisteredRule::MissingArgValidators => security::MissingArgValidators.spec_check_project(ctx),
            RegisteredRule::MissingReturnValidators => security::MissingReturnValidators.spec_check_project(ctx),
            RegisteredRule::MissingAuthCheck => security::MissingAuthCheck.spec_check_project(ctx),
            RegisteredRule::InternalApiMisuse => security::InternalApiMisuse.spec_check_project(ctx),
            RegisteredRule::HardcodedSecrets => security::HardcodedSecrets.spec_check_project(ctx),
            RegisteredRule::EnvNotGitignored => security::EnvNotGitignored.spec_check_project(ctx),
            RegisteredRule::SpoofableAccessControl => security::SpoofableAccessControl.spec_check_project(ctx),
            RegisteredRule::MissingTableId => security::MissingTableId.spec_check_project(ctx),
            RegisteredRule::MissingHttpAuth => security::MissingHttpAuth.spec_check_project(ctx),
            RegisteredRule::ConditionalFunctionExport => security::ConditionalFunctionExport.spec_check_project(ctx),
            RegisteredRule::GenericMutationArgs => security::GenericMutationArgs.spec_check_project(ctx),
            RegisteredRule::OverlyBroadPatch => security::OverlyBroadPatch.spec_check_project(ctx),
            RegisteredRule::HttpMissingCors => security::HttpMissingCors.spec_check_project(ctx),
            RegisteredRule::UnboundedCollect => performance::UnboundedCollect.spec_check_project(ctx),
            RegisteredRule::FilterWithoutIndex => performance::FilterWithoutIndex.spec_check_project(ctx),
            RegisteredRule::DateNowInQuery => performance::DateNowInQuery.spec_check_project(ctx),
            RegisteredRule::LoopRunMutation => performance::LoopRunMutation.spec_check_project(ctx),
            RegisteredRule::SequentialRunCalls => performance::SequentialRunCalls.spec_check_project(ctx),
            RegisteredRule::UnnecessaryRunAction => performance::UnnecessaryRunAction.spec_check_project(ctx),
            RegisteredRule::HelperVsRun => performance::HelperVsRun.spec_check_project(ctx),
            RegisteredRule::MissingIndexOnForeignKey => performance::MissingIndexOnForeignKey.spec_check_project(ctx),
            RegisteredRule::ActionFromClient => performance::ActionFromClient.spec_check_project(ctx),
            RegisteredRule::CollectThenFilter => performance::CollectThenFilter.spec_check_project(ctx),
            RegisteredRule::LargeDocumentWrite => performance::LargeDocumentWrite.spec_check_project(ctx),
            RegisteredRule::NoPaginationForList => performance::NoPaginationForList.spec_check_project(ctx),
            RegisteredRule::UnwaitedPromise => correctness::UnwaitedPromise.spec_check_project(ctx),
            RegisteredRule::OldFunctionSyntax => correctness::OldFunctionSyntax.spec_check_project(ctx),
            RegisteredRule::DbInAction => correctness::DbInAction.spec_check_project(ctx),
            RegisteredRule::DeprecatedApi => correctness::DeprecatedApi.spec_check_project(ctx),
            RegisteredRule::WrongRuntimeImport => correctness::WrongRuntimeImport.spec_check_project(ctx),
            RegisteredRule::DirectFunctionRef => correctness::DirectFunctionRef.spec_check_project(ctx),
            RegisteredRule::MissingUnique => correctness::MissingUnique.spec_check_project(ctx),
            RegisteredRule::QuerySideEffect => correctness::QuerySideEffect.spec_check_project(ctx),
            RegisteredRule::MutationInQuery => correctness::MutationInQuery.spec_check_project(ctx),
            RegisteredRule::CronUsesPublicApi => correctness::CronUsesPublicApi.spec_check_project(ctx),
            RegisteredRule::NodeQueryMutation => correctness::NodeQueryMutation.spec_check_project(ctx),
            RegisteredRule::SchedulerReturnIgnored => correctness::SchedulerReturnIgnored.spec_check_project(ctx),
            RegisteredRule::NonDeterministicInQuery => correctness::NonDeterministicInQuery.spec_check_project(ctx),
            RegisteredRule::ReplaceVsPatch => correctness::ReplaceVsPatch.spec_check_project(ctx),
            RegisteredRule::GeneratedCodeModified => correctness::GeneratedCodeModified.spec_check_project(ctx),
            RegisteredRule::MissingSchema => schema::MissingSchema.spec_check_project(ctx),
            RegisteredRule::DeepNesting => schema::DeepNesting.spec_check_project(ctx),
            RegisteredRule::ArrayRelationships => schema::ArrayRelationships.spec_check_project(ctx),
            RegisteredRule::RedundantIndex => schema::RedundantIndex.spec_check_project(ctx),
            RegisteredRule::TooManyIndexes => schema::TooManyIndexes.spec_check_project(ctx),
            RegisteredRule::MissingSearchIndexFilter => schema::MissingSearchIndexFilter.spec_check_project(ctx),
            RegisteredRule::OptionalFieldNoDefaultHandling => schema::OptionalFieldNoDefaultHandling.spec_check_project(ctx),
            RegisteredRule::MissingIndexForQuery => schema::MissingIndexForQuery.spec_check_project(ctx),
            RegisteredRule::LargeHandler => architecture::LargeHandler.spec_check_project(ctx),
            RegisteredRule::MonolithicFile => architecture::MonolithicFile.spec_check_project(ctx),
            RegisteredRule::DuplicatedAuth => architecture::DuplicatedAuth.spec_check_project(ctx),
            RegisteredRule::ActionWithoutScheduling => architecture::ActionWithoutScheduling.spec_check_project(ctx),
            RegisteredRule::NoConvexError => architecture::NoConvexError.spec_check_project(ctx),
            RegisteredRule::MixedFunctionTypes => architecture::MixedFunctionTypes.spec_check_project(ctx),
            RegisteredRule::NoHelperFunctions => architecture::NoHelperFunctions.spec_check_project(ctx),
            RegisteredRule::DeepFunctionChain => architecture::DeepFunctionChain.spec_check_project(ctx),
            RegisteredRule::MissingConvexJson => configuration::MissingConvexJson.spec_check_project(ctx),
            RegisteredRule::MissingAuthConfig => configuration::MissingAuthConfig.spec_check_project(ctx),
            RegisteredRule::MissingGeneratedCode => configuration::MissingGeneratedCode.spec_check_project(ctx),
            RegisteredRule::OutdatedNodeVersion => configuration::OutdatedNodeVersion.spec_check_project(ctx),
            RegisteredRule::MissingTsconfig => configuration::MissingTsconfig.spec_check_project(ctx),
            RegisteredRule::MutationInRender => client::MutationInRender.spec_check_project(ctx),
            RegisteredRule::UnhandledLoadingState => client::UnhandledLoadingState.spec_check_project(ctx),
            RegisteredRule::ActionInsteadOfMutation => client::ActionInsteadOfMutation.spec_check_project(ctx),
            RegisteredRule::MissingConvexProvider => client::MissingConvexProvider.spec_check_project(ctx),
        }
    }

    fn id(&self) -> (r: &'static str) {
        match *self {
            RegisteredRule::MissingArgValidators => security::MissingArgValidators.id(),
            RegisteredRule::MissingReturnValidators => security::MissingReturnValidators.id(),
            RegisteredRule::MissingAuthCheck => security::MissingAuthCheck.id(),
            RegisteredRule::InternalApiMisuse => security::InternalApiMisuse.id(),
            RegisteredRule::HardcodedSecrets => security::HardcodedSecrets.id(),
            RegisteredRule::EnvNotGitignored => security::EnvNotGitignored.id(),
            RegisteredRule::SpoofableAccessControl => security::SpoofableAccessControl.id(),
            RegisteredRule::MissingTableId => security::MissingTableId.id(),
            RegisteredRule::MissingHttpAuth => security::MissingHttpAuth.id(),
            RegisteredRule::ConditionalFunctionExport => security::ConditionalFunctionExport.id(),
            RegisteredRule::GenericMutationArgs => security::GenericMutationArgs.id(),
            RegisteredRule::OverlyBroadPatch => security::OverlyBroadPatch.id(),
            RegisteredRule::HttpMissingCors => security::HttpMissingCors.id(),
            RegisteredRule::UnboundedCollect => performance::UnboundedCollect.id(),
            RegisteredRule::FilterWithoutIndex => performance::FilterWithoutIndex.id(),
            RegisteredRule::DateNowInQuery => performance::DateNowInQuery.id(),
            RegisteredRule::LoopRunMutation => performance::LoopRunMutation.id(),
            RegisteredRule::SequentialRunCalls => performance::SequentialRunCalls.id(),
            RegisteredRule::UnnecessaryRunAction => performance::UnnecessaryRunAction.id(),
            RegisteredRule::HelperVsRun => performance::HelperVsRun.id(),
            RegisteredRule::MissingIndexOnForeignKey => performance::MissingIndexOnForeignKey.id(),
            RegisteredRule::ActionFromClient => performance::ActionFromClient.id(),
            RegisteredRule::CollectThenFilter => performance::CollectThenFilter.id(),
            RegisteredRule::LargeDocumentWrite => performance::LargeDocumentWrite.id(),
            RegisteredRule::NoPaginationForList => performance::NoPaginationForList.id(),
            RegisteredRule::UnwaitedPromise => correctness::UnwaitedPromise.id(),
            RegisteredRule::OldFunctionSyntax => correctness::OldFunctionSyntax.id(),
            RegisteredRule::DbInAction => correctness::DbInAction.id(),
            RegisteredRule::DeprecatedApi => correctness::DeprecatedApi.id(),
            RegisteredRule::WrongRuntimeImport => correctness::WrongRuntimeImport.id(),
            RegisteredRule::DirectFunctionRef => correctness::DirectFunctionRef.id(),
            RegisteredRule::MissingUnique => correctness::MissingUnique.id(),
            RegisteredRule::QuerySideEffect => correctness::QuerySideEffect.id(),
            RegisteredRule::MutationInQuery => correctness::MutationInQuery.id(),
            RegisteredRule::CronUsesPublicApi => correctness::CronUsesPublicApi.id(),
            RegisteredRule::NodeQueryMutation => correctness::NodeQueryMutation.id(),
            RegisteredRule::SchedulerReturnIgnored => correctness::SchedulerReturnIgnored.id(),
            RegisteredRule::NonDeterministicInQuery => correctness::NonDeterministicInQuery.id(),
            RegisteredRule::ReplaceVsPatch => correctness::ReplaceVsPatch.id(),
            RegisteredRule::GeneratedCodeModified => correctness::GeneratedCodeModified.id(),
            RegisteredRule::MissingSchema => schema::MissingSchema.id(),
            RegisteredRule::DeepNesting => schema::DeepNesting.id(),
            RegisteredRule::ArrayRelationships => schema::ArrayRelationships.id(),
            RegisteredRule::RedundantIndex => schema::RedundantIndex.id(),
            RegisteredRule::TooManyIndexes => schema::TooManyIndexes.id(),
            RegisteredRule::MissingSearchIndexFilter => schema::MissingSearchIndexFilter.id(),
            RegisteredRule::OptionalFieldNoDefaultHandling => schema::OptionalFieldNoDefaultHandling.id(),
            RegisteredRule::MissingIndexForQuery => schema::MissingIndexForQuery.id(),
            RegisteredRule::LargeHandler => architecture::LargeHandler.id(),
            RegisteredRule::MonolithicFile => architecture::MonolithicFile.id(),
            RegisteredRule::DuplicatedAuth => architecture::DuplicatedAuth.id(),
            RegisteredRule::ActionWithoutScheduling => architecture::ActionWithoutScheduling.id(),
            RegisteredRule::NoConvexError => architecture::NoConvexError.id(),
            RegisteredRule::MixedFunctionTypes => architecture::MixedFunctionTypes.id(),
            RegisteredRule::NoHelperFunctions => architecture::NoHelperFunctions.id(),
            RegisteredRule::DeepFunctionChain => architecture::DeepFunctionChain.id(),
            RegisteredRule::MissingConvexJson => configuration::MissingConvexJson.id(),
            RegisteredRule::MissingAuthConfig => configuration::MissingAuthConfig.id(),
            RegisteredRule::MissingGeneratedCode => configuration::MissingGeneratedCode.id(),
            RegisteredRule::OutdatedNodeVersion => configuration::OutdatedNodeVersion.id(),
            RegisteredRule::MissingTsconfig => configuration::MissingTsconfig.id(),
            RegisteredRule::MutationInRender => client::MutationInRender.id(),
            RegisteredRule::UnhandledLoadingState => client::UnhandledLoadingState.id(),
            RegisteredRule::ActionInsteadOfMutation => client::ActionInsteadOfMutation.id(),
            RegisteredRule::MissingConvexProvider => client::MissingConvexProvider.id(),
        }
    }

    fn category(&self) -> (r: Category) {
        match *self {
            RegisteredRule::MissingArgValidators => security::MissingArgValidators.category(),
            RegisteredRule::MissingReturnValidators => security::MissingReturnValidators.category(),
            RegisteredRule::MissingAuthCheck => security::MissingAuthCheck.category(),
            RegisteredRule::InternalApiMisuse => security::InternalApiMisuse.category(),
            RegisteredRule::HardcodedSecrets => security::HardcodedSecrets.category(),
            RegisteredRule::EnvNotGitignored => security::EnvNotGitignored.category(),
            RegisteredRule::SpoofableAccessControl => security::SpoofableAccessControl.category(),
            RegisteredRule::MissingTableId => security::MissingTableId.category(),
            RegisteredRule::MissingHttpAuth => security::MissingHttpAuth.category(),
            RegisteredRule::ConditionalFunctionExport => security::ConditionalFunctionExport.category(),
            RegisteredRule::GenericMutationArgs => security::GenericMutationArgs.category(),
            RegisteredRule::OverlyBroadPatch => security::OverlyBroadPatch.category(),
            RegisteredRule::HttpMissingCors => security::HttpMissingCors.category(),
            RegisteredRule::UnboundedCollect => performance::UnboundedCollect.category(),
            RegisteredRule::FilterWithoutIndex => performance::FilterWithoutIndex.category(),
            RegisteredRule::DateNowInQuery => performance::DateNowInQuery.category(),
            RegisteredRule::LoopRunMutation => performance::LoopRunMutation.category(),
            RegisteredRule::SequentialRunCalls => performance::SequentialRunCalls.category(),
            RegisteredRule::UnnecessaryRunAction => performance::UnnecessaryRunAction.category(),
            RegisteredRule::HelperVsRun => performance::HelperVsRun.category(),
            RegisteredRule::MissingIndexOnForeignKey => performance::MissingIndexOnForeignKey.category(),
            RegisteredRule::ActionFromClient => performance::ActionFromClient.category(),
            RegisteredRule::CollectThenFilter => performance::CollectThenFilter.category(),
            RegisteredRule::LargeDocumentWrite => performance::LargeDocumentWrite.category(),
            RegisteredRule::NoPaginationForList => performance::NoPaginationForList.category(),
            RegisteredRule::UnwaitedPromise => correctness::UnwaitedPromise.category(),
            RegisteredRule::OldFunctionSyntax => correctness::OldFunctionSyntax.category(),
            RegisteredRule::DbInAction => correctness::DbInAction.category(),
            RegisteredRule::DeprecatedApi => correctness::DeprecatedApi.category(),
            RegisteredRule::WrongRuntimeImport => correctness::WrongRuntimeImport.category(),
            RegisteredRule::DirectFunctionRef => correctness::DirectFunctionRef.category(),
            RegisteredRule::MissingUnique => correctness::MissingUnique.category(),
            RegisteredRule::QuerySideEffect => correctness::QuerySideEffect.category(),
            RegisteredRule::MutationInQuery => correctness::MutationInQuery.category(),
            RegisteredRule::CronUsesPublicApi => correctness::CronUsesPublicApi.category(),
            RegisteredRule::NodeQueryMutation => correctness::NodeQueryMutation.category(),
            RegisteredRule::SchedulerReturnIgnored => correctness::SchedulerReturnIgnored.category(),
            RegisteredRule::NonDeterministicInQuery => correctness::NonDeterministicInQuery.category(),
            RegisteredRule::ReplaceVsPatch => correctness::ReplaceVsPatch.category(),
            RegisteredRule::GeneratedCodeModified => correctness::GeneratedCodeModified.category(),
            RegisteredRule::MissingSchema => schema::MissingSchema.category(),
            RegisteredRule::DeepNesting => schema::DeepNesting.category(),
            RegisteredRule::ArrayRelationships => schema::ArrayRelationships.category(),
            RegisteredRule::RedundantIndex => schema::RedundantIndex.category(),
            RegisteredRule::TooManyIndexes => schema::TooManyIndexes.category(),
            RegisteredRule::MissingSearchIndexFilter => schema::MissingSearchIndexFilter.category(),
            RegisteredRule::OptionalFieldNoDefaultHandling => schema::OptionalFieldNoDefaultHandling.category(),
            RegisteredRule::MissingIndexForQuery => schema::MissingIndexForQuery.category(),
            RegisteredRule::LargeHandler => architecture::LargeHandler.category(),
            RegisteredRule::MonolithicFile => architecture::MonolithicFile.category(),
            RegisteredRule::DuplicatedAuth => architecture::DuplicatedAuth.category(),
            RegisteredRule::ActionWithoutScheduling => architecture::ActionWithoutScheduling.category(),
            RegisteredRule::NoConvexError => architecture::NoConvexError.category(),
            RegisteredRule::MixedFunctionTypes => architecture::MixedFunctionTypes.category(),
            RegisteredRule::NoHelperFunctions => architecture::NoHelperFunctions.category(),
            RegisteredRule::DeepFunctionChain => architecture::DeepFunctionChain.category(),
            RegisteredRule::MissingConvexJson => configuration::MissingConvexJson.category(),
            RegisteredRule::MissingAuthConfig => configuration::MissingAuthConfig.category(),
            RegisteredRule::MissingGeneratedCode => configuration::MissingGeneratedCode.category(),
            RegisteredRule::OutdatedNodeVersion => configuration::OutdatedNodeVersion.category(),
            RegisteredRule::MissingTsconfig => configuration::MissingTsconfig.category(),
            RegisteredRule::MutationInRender => client::MutationInRender.category(),
            RegisteredRule::UnhandledLoadingState => client::UnhandledLoadingState.category(),
            RegisteredRule::ActionInsteadOfMutation => client::ActionInsteadOfMutation.category(),
            RegisteredRule::MissingConvexProvider => client::MissingConvexProvider.category(),
        }
    }

    fn check(&self, analysis: &FileAnalysis) -> (r: Vec<Diagnostic>) {
        match *self {
            RegisteredRule::MissingArgValidators => security::MissingArgValidators.check(analysis),
            RegisteredRule::MissingReturnValidators => security::MissingReturnValidators.check(analysis),
            RegisteredRule::MissingAuthCheck => security::MissingAuthCheck.check(analysis),
            RegisteredRule::InternalApiMisuse => security::InternalApiMisuse.check(analysis),
            RegisteredRule::HardcodedSecrets => security::HardcodedSecrets.check(analysis),
            RegisteredRule::EnvNotGitignored => security::EnvNotGitignored.check(analysis),
            RegisteredRule::SpoofableAccessControl => security::SpoofableAccessControl.check(analysis),
            RegisteredRule::MissingTableId => security::MissingTableId.check(analysis),
            RegisteredRule::MissingHttpAuth => security::MissingHttpAuth.check(analysis),
            RegisteredRule::ConditionalFunctionExport => security::ConditionalFunctionExport.check(analysis),
            RegisteredRule::GenericMutationArgs => security::GenericMutationArgs.check(analysis),
            RegisteredRule::OverlyBroadPatch => security::OverlyBroadPatch.check(analysis),
            RegisteredRule::HttpMissingCors => security::HttpMissingCors.check(analysis),
            RegisteredRule::UnboundedCollect => performance::UnboundedCollect.check(analysis),
            RegisteredRule::FilterWithoutIndex => performance::FilterWithoutIndex.check(analysis),
            RegisteredRule::DateNowInQuery => performance::DateNowInQuery.check(analysis),
            RegisteredRule::LoopRunMutation => performance::LoopRunMutation.check(analysis),
            RegisteredRule::SequentialRunCalls => performance::SequentialRunCalls.check(analysis),
            RegisteredRule::UnnecessaryRunAction => performance::UnnecessaryRunAction.check(analysis),
            RegisteredRule::HelperVsRun => performance::HelperVsRun.check(analysis),
            RegisteredRule::MissingIndexOnForeignKey => performance::MissingIndexOnForeignKey.check(analysis),
            RegisteredRule::ActionFromClient => performance::ActionFromClient.check(analysis),
            RegisteredRule::CollectThenFilter => performance::CollectThenFilter.check(analysis),
            RegisteredRule::LargeDocumentWrite => performance::LargeDocumentWrite.check(analysis),
            RegisteredRule::NoPaginationForList => performance::NoPaginationForList.check(analysis),
            RegisteredRule::UnwaitedPromise => correctness::UnwaitedPromise.check(analysis),
            RegisteredRule::OldFunctionSyntax => correctness::OldFunctionSyntax.check(analysis),
            RegisteredRule::DbInAction => correctness::DbInAction.check(analysis),
            RegisteredRule::DeprecatedApi => correctness::DeprecatedApi.check(analysis),
            RegisteredRule::WrongRuntimeImport => correctness::WrongRuntimeImport.check(analysis),
            RegisteredRule::DirectFunctionRef => correctness::DirectFunctionRef.check(analysis),
            RegisteredRule::MissingUnique => correctness::MissingUnique.check(analysis),
            RegisteredRule::QuerySideEffect => correctness::QuerySideEffect.check(analysis),
            RegisteredRule::MutationInQuery => correctness::MutationInQuery.check(analysis),
            RegisteredRule::CronUsesPublicApi => correctness::CronUsesPublicApi.check(analysis),
            RegisteredRule::NodeQueryMutation => correctness::NodeQueryMutation.check(analysis),
            RegisteredRule::SchedulerReturnIgnored => correctness::SchedulerReturnIgnored.check(analysis),
            RegisteredRule::NonDeterministicInQuery => correctness::NonDeterministicInQuery.check(analysis),
            RegisteredRule::ReplaceVsPatch => correctness::ReplaceVsPatch.check(analysis),
            RegisteredRule::GeneratedCodeModified => correctness::GeneratedCodeModified.check(analysis),
            RegisteredRule::MissingSchema => schema::MissingSchema.check(analysis),
            RegisteredRule::DeepNesting => schema::DeepNesting.check(analysis),
            RegisteredRule::ArrayRelationships => schema::ArrayRelationships.check(analysis),
            RegisteredRule::RedundantIndex => schema::RedundantIndex.check(analysis),
            RegisteredRule::TooManyIndexes => schema::TooManyIndexes.check(analysis),
            RegisteredRule::MissingSearchIndexFilter => schema::MissingSearchIndexFilter.check(analysis),
            RegisteredRule::OptionalFieldNoDefaultHandling => schema::OptionalFieldNoDefaultHandling.check(analysis),
            RegisteredRule::MissingIndexForQuery => schema::MissingIndexForQuery.check(analysis),
            RegisteredRule::LargeHandler => architecture::LargeHandler.check(analysis),
            RegisteredRule::MonolithicFile => architecture::MonolithicFile.check(analysis),
            RegisteredRule::DuplicatedAuth => architecture::DuplicatedAuth.check(analysis),
            RegisteredRule::ActionWithoutScheduling => architecture::ActionWithoutScheduling.check(analysis),
            RegisteredRule::NoConvexError => architecture::NoConvexError.check(analysis),
            RegisteredRule::MixedFunctionTypes => architecture::MixedFunctionTypes.check(analysis),
            RegisteredRule::NoHelperFunctions => architecture::NoHelperFunctions.check(analysis),
            RegisteredRule::DeepFunctionChain => architecture::DeepFunctionChain.check(analysis),
            RegisteredRule::MissingConvexJson => configuration::MissingConvexJson.check(analysis),
            RegisteredRule::MissingAuthConfig => configuration::MissingAuthConfig.check(analysis),
            RegisteredRule::MissingGeneratedCode => configuration::MissingGeneratedCode.check(analysis),
            RegisteredRule::OutdatedNodeVersion => configuration::OutdatedNodeVersion.check(analysis),
            RegisteredRule::MissingTsconfig => configuration::MissingTsconfig.check(analysis),
            RegisteredRule::MutationInRender => client::MutationInRender.check(analysis),
            RegisteredRule::UnhandledLoadingState => client::UnhandledLoadingState.check(analysis),
            RegisteredRule::ActionInsteadOfMutation => client::ActionInsteadOfMutation.check(analysis),
            RegisteredRule::MissingConvexProvider => client::MissingConvexProvider.check(analysis),
        }
    }

    fn check_project(&self, ctx: &ProjectContext) -> (r: Vec<Diagnostic>) {
        match *self {
            RegisteredRule::MissingArgValidators => security::MissingArgValidators.check_project(ctx),
            RegisteredRule::MissingReturnValidators => security::MissingReturnValidators.check_project(ctx),
            RegisteredRule::MissingAuthCheck => security::MissingAuthCheck.check_project(ctx),
            RegisteredRule::InternalApiMisuse => security::InternalApiMisuse.check_project(ctx),
            RegisteredRule::HardcodedSecrets => security::HardcodedSecrets.check_project(ctx),
            RegisteredRule::EnvNotGitignored => security::EnvNotGitignored.check_project(ctx),
            RegisteredRule::SpoofableAccessControl => security::SpoofableAccessControl.check_project(ctx),
            RegisteredRule::MissingTableId => security::MissingTableId.check_project(ctx),
            RegisteredRule::MissingHttpAuth => security::MissingHttpAuth.check_project(ctx),
            RegisteredRule::ConditionalFunctionExport => security::ConditionalFunctionExport.check_project(ctx),
            RegisteredRule::GenericMutationArgs => security::GenericMutationArgs.check_project(ctx),
            RegisteredRule::OverlyBroadPatch => security::OverlyBroadPatch.check_project(ctx),
            RegisteredRule::HttpMissingCors => security::HttpMissingCors.check_project(ctx),
            RegisteredRule::UnboundedCollect => performance::UnboundedCollect.check_project(ctx),
            RegisteredRule::FilterWithoutIndex => performance::FilterWithoutIndex.check_project(ctx),
            RegisteredRule::DateNowInQuery => performance::DateNowInQuery.check_project(ctx),
            RegisteredRule::LoopRunMutation => performance::LoopRunMutation.check_project(ctx),
            RegisteredRule::SequentialRunCalls => performance::SequentialRunCalls.check_project(ctx),
            RegisteredRule::UnnecessaryRunAction => performance::UnnecessaryRunAction.check_project(ctx),
            RegisteredRule::HelperVsRun => performance::HelperVsRun.check_project(ctx),
            RegisteredRule::MissingIndexOnForeignKey => performance::MissingIndexOnForeignKey.check_project(ctx),
            RegisteredRule::ActionFromClient => performance::ActionFromClient.check_project(ctx),
            RegisteredRule::CollectThenFilter => performance::CollectThenFilter.check_project(ctx),
            RegisteredRule::LargeDocumentWrite => performance::LargeDocumentWrite.check_project(ctx),
            RegisteredRule::NoPaginationForList => performance::NoPaginationForList.check_project(ctx),
            RegisteredRule::UnwaitedPromise => correctness::UnwaitedPromise.check_project(ctx),
            RegisteredRule::OldFunctionSyntax => correctness::OldFunctionSyntax.check_project(ctx),
            RegisteredRule::DbInAction => correctness::DbInAction.check_project(ctx),
            RegisteredRule::DeprecatedApi => correctness::DeprecatedApi.check_project(ctx),
            RegisteredRule::WrongRuntimeImport => correctness::WrongRuntimeImport.check_project(ctx),
            RegisteredRule::DirectFunctionRef => correctness::DirectFunctionRef.check_project(ctx),
            RegisteredRule::MissingUnique => correctness::MissingUnique.check_project(ctx),
            RegisteredRule::QuerySideEffect => correctness::QuerySideEffect.check_project(ctx),
            RegisteredRule::MutationInQuery => correctness::MutationInQuery.check_project(ctx),
            RegisteredRule::CronUsesPublicApi => correctness::CronUsesPublicApi.check_project(ctx),
            RegisteredRule::NodeQueryMutation => correctness::NodeQueryMutation.check_project(ctx),
            RegisteredRule::SchedulerReturnIgnored => correctness::SchedulerReturnIgnored.check_project(ctx),
            RegisteredRule::NonDeterministicInQuery => correctness::NonDeterministicInQuery.check_project(ctx),
            RegisteredRule::ReplaceVsPatch => correctness::ReplaceVsPatch.check_project(ctx),
            RegisteredRule::GeneratedCodeModified => correctness::GeneratedCodeModified.check_project(ctx),
            RegisteredRule::MissingSchema => schema::MissingSchema.check_project(ctx),
            RegisteredRule::DeepNesting => schema::DeepNesting.check_project(ctx),
            RegisteredRule::ArrayRelationships => schema::ArrayRelationships.check_project(ctx),
            RegisteredRule::RedundantIndex => schema::RedundantIndex.check_project(ctx),
            RegisteredRule::TooManyIndexes => schema::TooManyIndexes.check_project(ctx),
            RegisteredRule::MissingSearchIndexFilter => schema::MissingSearchIndexFilter.check_project(ctx),
            RegisteredRule::OptionalFieldNoDefaultHandling => schema::OptionalFieldNoDefaultHandling.check_project(ctx),
            RegisteredRule::MissingIndexForQuery => schema::MissingIndexForQuery.check_project(ctx),
            RegisteredRule::LargeHandler => architecture::LargeHandler.check_project(ctx),
            RegisteredRule::MonolithicFile => architecture::MonolithicFile.check_project(ctx),
            RegisteredRule::DuplicatedAuth => architecture::DuplicatedAuth.check_project(ctx),
            RegisteredRule::ActionWithoutScheduling => architecture::ActionWithoutScheduling.check_project(ctx),
            RegisteredRule::NoConvexError => architecture::NoConvexError.check_project(ctx),
            RegisteredRule::MixedFunctionTypes => architecture::MixedFunctionTypes.check_project(ctx),
            RegisteredRule::NoHelperFunctions => architecture::NoHelperFunctions.check_project(ctx),
            RegisteredRule::DeepFunctionChain => architecture::DeepFunctionChain.check_project(ctx),
            RegisteredRule::MissingConvexJson => configuration::MissingConvexJson.check_project(ctx),
            RegisteredRule::MissingAuthConfig => configuration::MissingAuthConfig.check_project(ctx),
            RegisteredRule::MissingGeneratedCode => configuration::MissingGeneratedCode.check_project(ctx),
            RegisteredRule::OutdatedNodeVersion => configuration::OutdatedNodeVersion.check_project(ctx),
            RegisteredRule::MissingTsconfig => configuration::MissingTsconfig.check_project(ctx),
            RegisteredRule::MutationInRender => client::MutationInRender.check_project(ctx),
            RegisteredRule::UnhandledLoadingState => client::UnhandledLoadingState.check_project(ctx),
            RegisteredRule::ActionInsteadOfMutation => client::ActionInsteadOfMutation.check_project(ctx),
            RegisteredRule::MissingConvexProvider => client::MissingConvexProvider.check_project(ctx),
        }
    }
}

/// The rules in the order the registry runs them.
pub open spec fn registered_rules() -> Seq<RegisteredRule> {
    seq![
        RegisteredRule::MissingArgValidators,
        RegisteredRule::MissingReturnValidators,
        RegisteredRule::MissingAuthCheck,
        RegisteredRule::InternalApiMisuse,
        RegisteredRule::HardcodedSecrets,
        RegisteredRule::EnvNotGitignored,
        RegisteredRule::SpoofableAccessControl,
        RegisteredRule::MissingTableId,
        RegisteredRule::MissingHttpAuth,
        RegisteredRule::ConditionalFunctionExport,
        RegisteredRule::GenericMutationArgs,
        RegisteredRule::OverlyBroadPatch,
        RegisteredRule::HttpMissingCors,
        RegisteredRule::UnboundedCollect,
        RegisteredRule::FilterWithoutIndex,
        RegisteredRule::DateNowInQuery,
        RegisteredRule::LoopRunMutation,
        RegisteredRule::SequentialRunCalls,
        RegisteredRule::UnnecessaryRunAction,
        RegisteredRule::HelperVsRun,
        RegisteredRule::MissingIndexOnForeignKey,
        RegisteredRule::ActionFromClient,
        RegisteredRule::CollectThenFilter,
        RegisteredRule::LargeDocumentWrite,
        RegisteredRule::NoPaginationForList,
        RegisteredRule::UnwaitedPromise,
        RegisteredRule::OldFunctionSyntax,
        RegisteredRule::DbInAction,
        RegisteredRule::DeprecatedApi,
        RegisteredRule::WrongRuntimeImport,
        RegisteredRule::DirectFunctionRef,
        RegisteredRule::MissingUnique,
        RegisteredRule::QuerySideEffect,
        RegisteredRule::MutationInQuery,
        RegisteredRule::CronUsesPublicApi,
        RegisteredRule::NodeQueryMutation,
        RegisteredRule::SchedulerReturnIgnored,
        RegisteredRule::NonDeterministicInQuery,
        RegisteredRule::ReplaceVsPatch,
        RegisteredRule::GeneratedCodeModified,
        RegisteredRule::MissingSchema,
        RegisteredRule::DeepNesting,
        RegisteredRule::ArrayRelationships,
        RegisteredRule::RedundantIndex,
        RegisteredRule::TooManyIndexes,
        RegisteredRule::MissingSearchIndexFilter,
        RegisteredRule::OptionalFieldNoDefaultHandling,
        RegisteredRule::MissingIndexForQuery,
        RegisteredRule::LargeHandler,
        RegisteredRule::MonolithicFile,
        RegisteredRule::DuplicatedAuth,
        RegisteredRule::ActionWithoutScheduling,
        RegisteredRule::NoConvexError,
        RegisteredRule::MixedFunctionTypes,
        RegisteredRule::NoHelperFunctions,
        RegisteredRule::DeepFunctionChain,
        RegisteredRule::MissingConvexJson,
        RegisteredRule::MissingAuthConfig,
        RegisteredRule::MissingGeneratedCode,
        RegisteredRule::OutdatedNodeVersion,
        RegisteredRule::MissingTsconfig,
        RegisteredRule::MutationInRender,
        RegisteredRule::UnhandledLoadingState,
        RegisteredRule::ActionInsteadOfMutation,
        RegisteredRule::MissingConvexProvider,
    ]
}

/// The diagnostics that the enabled rules among `rules` report for one file, rule after rule.
pub open spec fn file_diagnostics(
    rules: Seq<RegisteredRule>,
    analysis: FileAnalysis,
    settings: Seq<(String, String)>,
) -> Seq<DiagnosticModel>
    decreases rules.len(),
{
    if rules.len() == 0 {
        Seq::empty()
    } else {
        file_diagnostics(rules.drop_last(), analysis, settings) + if rule_enabled(
            settings,
            rules.last().spec_id(),
        ) {
            rules.last().spec_check(analysis)
        } else {
            Seq::empty()
        }
    }
}

/// The diagnostics that the enabled rules among `rules` report for the whole project.
pub open spec fn project_diagnostics(
    rules: Seq<RegisteredRule>,
    ctx: ProjectContext,
    settings: Seq<(String, String)>,
) -> Seq<DiagnosticModel>
    decreases rules.len(),
{
    if rules.len() == 0 {
        Seq::empty()
    } else {
        project_diagnostics(rules.drop_last(), ctx, settings) + if rule_enabled(
            settings,
            rules.last().spec_id(),
        ) {
            rules.last().spec_check_project(ctx)
        } else {
            Seq::empty()
        }
    }
}

/// Each diagnostic of `ds` names a rule of `rules` that `settings` leaves enabled, and has
/// that rule's category.
pub open spec fn from_enabled_rules(
    ds: Seq<DiagnosticModel>,
    rules: Seq<RegisteredRule>,
    settings: Seq<(String, String)>,
) -> bool {
    forall|k: int|
        0 <= k < ds.len() ==> {
            &&& rule_enabled(settings, #[trigger] ds[k].rule)
            &&& exists|j: int|
                0 <= j < rules.len() && (#[trigger] rules[j]).spec_id() == ds[k].rule
                    && rules[j].spec_category() == ds[k].category
        }
}

/// All the rules, in a fixed order.
pub struct RuleRegistry {
    rules: Vec<RegisteredRule>,
}

impl View for RuleRegistry {
    type V = Seq<RegisteredRule>;

    closed spec fn view(&self) -> Seq<RegisteredRule> {
        self.rules@
    }
}

impl Default for RuleRegistry {
    fn default() -> (r: Self)
        ensures
            r@ == registered_rules(),
    {
        RuleRegistry::new()
    }
}

/// Appending the findings of one more rule keeps them attributed to enabled rules of the prefix.
proof fn lemma_from_enabled_step(
    out: Seq<DiagnosticModel>,
    found: Seq<DiagnosticModel>,
    rules: Seq<RegisteredRule>,
    i: int,
    settings: Seq<(String, String)>,
)
    requires
        0 <= i < rules.len(),
        from_enabled_rules(out, rules.take(i), settings),
        found.len() > 0 ==> rule_enabled(settings, rules[i].spec_id()),
        all_tagged(found, rules[i].spec_id(), rules[i].spec_category()),
    ensures
        from_enabled_rules(out + found, rules.take(i + 1), settings),
{
    let all = out + found;
    let pre = rules.take(i + 1);
    assert forall|k: int| 0 <= k < all.len() implies {
        &&& rule_enabled(settings, #[trigger] all[k].rule)
        &&& exists|j: int|
            0 <= j < pre.len() && (#[trigger] pre[j]).spec_id() == all[k].rule
                && pre[j].spec_category() == all[k].category
    } by {
        if k < out.len() {
            assert(all[k] == out[k]);
            let j = choose|j: int|
                0 <= j < rules.take(i).len() && (#[trigger] rules.take(i)[j]).spec_id() == out[k].rule
                    && rules.take(i)[j].spec_category() == out[k].category;
            assert(pre[j] == rules.take(i)[j]);
        } else {
            assert(all[k] == found[k - out.len()]);
            assert(pre[i] == rules[i]);
        }
    }
}

impl RuleRegistry {
    /// The registry of every rule, in the order of [`registered_rules`].
    pub fn new() -> (r: Self)
        ensures
            r@ == registered_rules(),
    {
        let rules: Vec<RegisteredRule> = vec![
            RegisteredRule::MissingArgValidators,
            RegisteredRule::MissingReturnValidators,
            RegisteredRule::MissingAuthCheck,
            RegisteredRule::InternalApiMisuse,
            RegisteredRule::HardcodedSecrets,
            RegisteredRule::EnvNotGitignored,
            RegisteredRule::SpoofableAccessControl,
            RegisteredRule::MissingTableId,
            RegisteredRule::MissingHttpAuth,
            RegisteredRule::ConditionalFunctionExport,
            RegisteredRule::GenericMutationArgs,
            RegisteredRule::OverlyBroadPatch,
            RegisteredRule::HttpMissingCors,
            RegisteredRule::UnboundedCollect,
            RegisteredRule::FilterWithoutIndex,
            RegisteredRule::DateNowInQuery,
            RegisteredRule::LoopRunMutation,
            RegisteredRule::SequentialRunCalls,
            RegisteredRule::UnnecessaryRunAction,
            RegisteredRule::HelperVsRun,
            RegisteredRule::MissingIndexOnForeignKey,
            RegisteredRule::ActionFromClient,
            RegisteredRule::CollectThenFilter,
            RegisteredRule::LargeDocumentWrite,
            RegisteredRule::NoPaginationForList,
            RegisteredRule::UnwaitedPromise,
            RegisteredRule::OldFunctionSyntax,
            RegisteredRule::DbInAction,
            RegisteredRule::DeprecatedApi,
            RegisteredRule::WrongRuntimeImport,
            RegisteredRule::DirectFunctionRef,
            RegisteredRule::MissingUnique,
            RegisteredRule::QuerySideEffect,
            RegisteredRule::MutationInQuery,
            RegisteredRule::CronUsesPublicApi,
            RegisteredRule::NodeQueryMutation,
            RegisteredRule::SchedulerReturnIgnored,
            RegisteredRule::NonDeterministicInQuery,
            RegisteredRule::ReplaceVsPatch,
            RegisteredRule::GeneratedCodeModified,
            RegisteredRule::MissingSchema,
            RegisteredRule::DeepNesting,
            RegisteredRule::ArrayRelationships,
            RegisteredRule::RedundantIndex,
            RegisteredRule::TooManyIndexes,
            RegisteredRule::MissingSearchIndexFilter,
            RegisteredRule::OptionalFieldNoDefaultHandling,
            RegisteredRule::MissingIndexForQuery,
            RegisteredRule::LargeHandler,
            RegisteredRule::MonolithicFile,
            RegisteredRule::DuplicatedAuth,
            RegisteredRule::ActionWithoutScheduling,
            RegisteredRule::NoConvexError,
            RegisteredRule::MixedFunctionTypes,
            RegisteredRule::NoHelperFunctions,
            RegisteredRule::DeepFunctionChain,
            RegisteredRule::MissingConvexJson,
            RegisteredRule::MissingAuthConfig,
            RegisteredRule::MissingGeneratedCode,
            RegisteredRule::OutdatedNodeVersion,
            RegisteredRule::MissingTsconfig,
            RegisteredRule::MutationInRender,
            RegisteredRule::UnhandledLoadingState,
            RegisteredRule::ActionInsteadOfMutation,
            RegisteredRule::MissingConvexProvider,
        ];
        let r = RuleRegistry { rules };
        assert(r@ =~= registered_rules());
        r
    }

    /// The rules, in the order they run.
    pub fn rules(&self) -> (r: &[RegisteredRule])
        ensures
            r@ == self@,
    {
        self.rules.as_slice()
    }

    /// The diagnostics that the rules `config` leaves enabled report for one file: each enabled
    /// rule's findings in turn, in registry order. A rule whose setting is `"off"` reports nothing.
    pub fn run(&self, analysis: &FileAnalysis, config: &Config) -> (r: Vec<Diagnostic>)
        ensures
            models(r@) == file_diagnostics(self@, *analysis, config.rules@),
            from_enabled_rules(models(r@), self@, config.rules@),
    {
        let mut out: Vec<Diagnostic> = Vec::new();
        let mut i: usize = 0;
        while i < self.rules.len()
            invariant
                i <= self.rules.len(),
                models(out@) == file_diagnostics(self.rules@.take(i as int), *analysis, config.rules@),
                from_enabled_rules(models(out@), self.rules@.take(i as int), config.rules@),
            decreases self.rules.len() - i,
        {
            let rule = self.rules[i];
            let ghost before = out@;
            proof {
                assert(self.rules@.take(i + 1).drop_last() =~= self.rules@.take(i as int));
                assert(self.rules@.take(i + 1).last() == rule);
            }
            if config.is_rule_enabled(rule.id()) {
                let mut found = rule.check(analysis);
                let ghost added = found@;
                out.append(&mut found);
                proof {
                    lemma_models_add(before, added);
                    lemma_from_enabled_step(models(before), models(added), self.rules@, i as int, config.rules@);
                }
            } else {
                proof {
                    assert(models(before) + Seq::<DiagnosticModel>::empty() =~= models(before));
                    lemma_from_enabled_step(models(before), Seq::empty(), self.rules@, i as int, config.rules@);
                }
            }
            i = i + 1;
        }
        proof {
            assert(self.rules@.take(self.rules@.len() as int) =~= self.rules@);
        }
        out
    }

    /// The diagnostics that the rules `config` leaves enabled report for the whole project,
    /// each enabled rule's findings in turn, in registry order.
    pub fn run_project(&self, ctx: &ProjectContext, config: &Config) -> (r: Vec<Diagnostic>)
        ensures
            models(r@) == project_diagnostics(self@, *ctx, config.rules@),
            from_enabled_rules(models(r@), self@, config.rules@),
    {
        let mut out: Vec<Diagnostic> = Vec::new();
        let mut i: usize = 0;
        while i < self.rules.len()
            invariant
                i <= self.rules.len(),
                models(out@) == project_diagnostics(self.rules@.take(i as int), *ctx, config.rules@),
                from_enabled_rules(models(out@), self.rules@.take(i as int), config.rules@),
            decreases self.rules.len() - i,
        {
            let rule = self.rules[i];
            let ghost before = out@;
            proof {
                assert(self.rules@.take(i + 1).drop_last() =~= self.rules@.take(i as int));
                assert(self.rules@.take(i + 1).last() == rule);
            }
            if config.is_rule_enabled(rule.id()) {
                let mut found = rule.check_project(ctx);
                let ghost added = found@;
                out.append(&mut found);
                proof {
                    lemma_models_add(before, added);
                    lemma_from_enabled_step(models(before), models(added), self.rules@, i as int, config.rules@);
                }
            } else {
                proof {
                    assert(models(before) + Seq::<DiagnosticModel>::empty() =~= models(before));
                    lemma_from_enabled_step(models(before), Seq::empty(), self.rules@, i as int, config.rules@);
                }
            }
            i = i + 1;
        }
        proof {
            assert(self.rules@.take(self.rules@.len() as int) =~= self.rules@);
        }
        out
    }
}

/// The registered rule whose id is `id`.
pub open spec fn rule_named(id: Seq<char>) -> Option<RegisteredRule> {
    if id == "security/missing-arg-validators"@ {
        Some(RegisteredRule::MissingArgValidators)
    } else if id == "security/missing-return-validators"@ {
        Some(RegisteredRule::MissingReturnValidators)
    } else if id == "security/missing-auth-check"@ {
        Some(RegisteredRule::MissingAuthCheck)
    } else if id == "security/internal-api-misuse"@ {
        Some(RegisteredRule::InternalApiMisuse)
    } else if id == "security/hardcoded-secrets"@ {
        Some(RegisteredRule::HardcodedSecrets)
    } else if id == "security/env-not-gitignored"@ {
        Some(RegisteredRule::EnvNotGitignored)
    } else if id == "security/spoofable-access-control"@ {
        Some(RegisteredRule::SpoofableAccessControl)
    } else if id == "security/missing-table-id"@ {
        Some(RegisteredRule::MissingTableId)
    } else if id == "security/missing-http-auth"@ {
        Some(RegisteredRule::MissingHttpAuth)
    } else if id == "security/conditional-function-export"@ {
        Some(RegisteredRule::ConditionalFunctionExport)
    } else if id == "security/generic-mutation-args"@ {
        Some(RegisteredRule::GenericMutationArgs)
    } else if id == "security/overly-broad-patch"@ {
        Some(RegisteredRule::OverlyBroadPatch)
    } else if id == "security/http-missing-cors"@ {
        Some(RegisteredRule::HttpMissingCors)
    } else if id == "perf/unbounded-collect"@ {
        Some(RegisteredRule::UnboundedCollect)
    } else if id == "perf/filter-without-index"@ {
        Some(RegisteredRule::FilterWithoutIndex)
    } else if id == "perf/date-now-in-query"@ {
        Some(RegisteredRule::DateNowInQuery)
    } else if id == "perf/loop-run-mutation"@ {
        Some(RegisteredRule::LoopRunMutation)
    } else if id == "perf/sequential-run-calls"@ {
        Some(RegisteredRule::SequentialRunCalls)
    } else if id == "perf/unnecessary-run-action"@ {
        Some(RegisteredRule::UnnecessaryRunAction)
    } else if id == "perf/helper-vs-run"@ {
        Some(RegisteredRule::HelperVsRun)
    } else if id == "perf/missing-index-on-foreign-key"@ {
        Some(RegisteredRule::MissingIndexOnForeignKey)
    } else if id == "perf/action-from-client"@ {
        Some(RegisteredRule::ActionFromClient)
    } else if id == "perf/collect-then-filter"@ {
        Some(RegisteredRule::CollectThenFilter)
    } else if id == "perf/large-document-write"@ {
        Some(RegisteredRule::LargeDocumentWrite)
    } else if id == "perf/no-pagination-for-list"@ {
        Some(RegisteredRule::NoPaginationForList)
    } else if id == "correctness/unwaited-promise"@ {
        Some(RegisteredRule::UnwaitedPromise)
    } else if id == "correctness/old-function-syntax"@ {
        Some(RegisteredRule::OldFunctionSyntax)
    } else if id == "correctness/db-in-action"@ {
        Some(RegisteredRule::DbInAction)
    } else if id == "correctness/deprecated-api"@ {
        Some(RegisteredRule::DeprecatedApi)
    } else if id == "correctness/wrong-runtime-import"@ {
        Some(RegisteredRule::WrongRuntimeImport)
    } else if id == "correctness/direct-function-ref"@ {
        Some(RegisteredRule::DirectFunctionRef)
    } else if id == "correctness/missing-unique"@ {
        Some(RegisteredRule::MissingUnique)
    } else if id == "correctness/query-side-effect"@ {
        Some(RegisteredRule::QuerySideEffect)
    } else if id == "correctness/mutation-in-query"@ {
        Some(RegisteredRule::MutationInQuery)
    } else if id == "correctness/cron-uses-public-api"@ {
        Some(RegisteredRule::CronUsesPublicApi)
    } else if id == "correctness/node-query-mutation"@ {
        Some(RegisteredRule::NodeQueryMutation)
    } else if id == "correctness/scheduler-return-ignored"@ {
        Some(RegisteredRule::SchedulerReturnIgnored)
    } else if id == "correctness/non-deterministic-in-query"@ {
        Some(RegisteredRule::NonDeterministicInQuery)
    } else if id == "correctness/replace-vs-patch"@ {
        Some(RegisteredRule::ReplaceVsPatch)
    } else if id == "correctness/generated-code-modified"@ {
        Some(RegisteredRule::GeneratedCodeModified)
    } else if id == "schema/missing-schema"@ {
        Some(RegisteredRule::MissingSchema)
    } else if id == "schema/deep-nesting"@ {
        Some(RegisteredRule::DeepNesting)
    } else if id == "schema/array-relationships"@ {
        Some(RegisteredRule::ArrayRelationships)
    } else if id == "schema/redundant-index"@ {
        Some(RegisteredRule::RedundantIndex)
    } else if id == "schema/too-many-indexes"@ {
        Some(RegisteredRule::TooManyIndexes)
    } else if id == "schema/missing-search-index-filter"@ {
        Some(RegisteredRule::MissingSearchIndexFilter)
    } else if id == "schema/optional-field-no-default-handling"@ {
        Some(RegisteredRule::OptionalFieldNoDefaultHandling)
    } else if id == "schema/missing-index-for-query"@ {
        Some(RegisteredRule::MissingIndexForQuery)
    } else if id == "arch/large-handler"@ {
        Some(RegisteredRule::LargeHandler)
    } else if id == "arch/monolithic-file"@ {
        Some(RegisteredRule::MonolithicFile)
    } else if id == "arch/duplicated-auth"@ {
        Some(RegisteredRule::DuplicatedAuth)
    } else if id == "arch/action-without-scheduling"@ {
        Some(RegisteredRule::ActionWithoutScheduling)
    } else if id == "arch/no-convex-error"@ {
        Some(RegisteredRule::NoConvexError)
    } else if id == "arch/mixed-function-types"@ {
        Some(RegisteredRule::MixedFunctionTypes)
    } else if id == "arch/no-helper-functions"@ {
        Some(RegisteredRule::NoHelperFunctions)
    } else if id == "arch/deep-function-chain"@ {
        Some(RegisteredRule::DeepFunctionChain)
    } else if id == "config/missing-convex-json"@ {
        Some(RegisteredRule::MissingConvexJson)
    } else if id == "config/missing-auth-config"@ {
        Some(RegisteredRule::MissingAuthConfig)
    } else if id == "config/missing-generated-code"@ {
        Some(RegisteredRule::MissingGeneratedCode)
    } else if id == "config/outdated-node-version"@ {
        Some(RegisteredRule::OutdatedNodeVersion)
    } else if id == "config/missing-tsconfig"@ {
        Some(RegisteredRule::MissingTsconfig)
    } else if id == "client/mutation-in-render"@ {
        Some(RegisteredRule::MutationInRender)
    } else if id == "client/unhandled-loading-state"@ {
        Some(RegisteredRule::UnhandledLoadingState)
    } else if id == "client/action-instead-of-mutation"@ {
        Some(RegisteredRule::ActionInsteadOfMutation)
    } else if id == "client/missing-convex-provider"@ {
        Some(RegisteredRule::MissingConvexProvider)
    } else {
        None
    }
}

/// The prefix of the ids of a category's rules.
pub open spec fn category_prefix(c: Category) -> Seq<char> {
    match c {
        Category::Security => "security/"@,
        Category::Performance => "perf/"@,
        Category::Correctness => "correctness/"@,
        Category::Schema => "schema/"@,
        Category::Architecture => "arch/"@,
        Category::Configuration => "config/"@,
        Category::ClientSide => "client/"@,
    }
}

/// A registered rule's id names that rule.
#[verifier::rlimit(50)]
proof fn lemma_rule_named(r: RegisteredRule)
    ensures
        rule_named(r.spec_id()) == Some(r),
{
    reveal_strlit("security/missing-arg-validators");
    reveal_strlit("security/missing-return-validators");
    reveal_strlit("security/missing-auth-check");
    reveal_strlit("security/internal-api-misuse");
    reveal_strlit("security/hardcoded-secrets");
    reveal_strlit("security/env-not-gitignored");
    reveal_strlit("security/spoofable-access-control");
    reveal_strlit("security/missing-table-id");
    reveal_strlit("security/missing-http-auth");
    reveal_strlit("security/conditional-function-export");
    reveal_strlit("security/generic-mutation-args");
    reveal_strlit("security/overly-broad-patch");
    reveal_strlit("security/http-missing-cors");
    reveal_strlit("perf/unbounded-collect");
    reveal_strlit("perf/filter-without-index");
    reveal_strlit("perf/date-now-in-query");
    reveal_strlit("perf/loop-run-mutation");
    reveal_strlit("perf/sequential-run-calls");
    reveal_strlit("perf/unnecessary-run-action");
    reveal_strlit("perf/helper-vs-run");
    reveal_strlit("perf/missing-index-on-foreign-key");
    reveal_strlit("perf/action-from-client");
    reveal_strlit("perf/collect-then-filter");
    reveal_strlit("perf/large-document-write");
    reveal_strlit("perf/no-pagination-for-list");
    reveal_strlit("correctness/unwaited-promise");
    reveal_strlit("correctness/old-function-syntax");
    reveal_strlit("correctness/db-in-action");
    reveal_strlit("correctness/deprecated-api");
    reveal_strlit("correctness/wrong-runtime-import");
    reveal_strlit("correctness/direct-function-ref");
    reveal_strlit("correctness/missing-unique");
    reveal_strlit("correctness/query-side-effect");
    reveal_strlit("correctness/mutation-in-query");
    reveal_strlit("correctness/cron-uses-public-api");
    reveal_strlit("correctness/node-query-mutation");
    reveal_strlit("correctness/scheduler-return-ignored");
    reveal_strlit("correctness/non-deterministic-in-query");
    reveal_strlit("correctness/replace-vs-patch");
    reveal_strlit("correctness/generated-code-modified");
    reveal_strlit("schema/missing-schema");
    reveal_strlit("schema/deep-nesting");
    reveal_strlit("schema/array-relationships");
    reveal_strlit("schema/redundant-index");
    reveal_strlit("schema/too-many-indexes");
    reveal_strlit("schema/missing-search-index-filter");
    reveal_strlit("schema/optional-field-no-default-handling");
    reveal_strlit("schema/missing-index-for-query");
    reveal_strlit("arch/large-handler");
    reveal_strlit("arch/monolithic-file");
    reveal_strlit("arch/duplicated-auth");
    reveal_strlit("arch/action-without-scheduling");
    reveal_strlit("arch/no-convex-error");
    reveal_strlit("arch/mixed-function-types");
    reveal_strlit("arch/no-helper-functions");
    reveal_strlit("arch/deep-function-chain");
    reveal_strlit("config/missing-convex-json");
    reveal_strlit("config/missing-auth-config");
    reveal_strlit("config/missing-generated-code");
    reveal_strlit("config/outdated-node-version");
    reveal_strlit("config/missing-tsconfig");
    reveal_strlit("client/mutation-in-render");
    reveal_strlit("client/unhandled-loading-state");
    reveal_strlit("client/action-instead-of-mutation");
    reveal_strlit("client/missing-convex-provider");
    // Each id, read at the positions where it first differs from the ids listed before it.
    match r {
        RegisteredRule::MissingArgValidators => {},
        RegisteredRule::MissingReturnValidators => {
            let id = "security/missing-return-validators";
            assert(id@[17] == 'r');
        },
        RegisteredRule::MissingAuthCheck => {
            let id = "security/missing-auth-check";
            assert(id@[17] == 'a' && id@[18] == 'u');
        },
        RegisteredRule::InternalApiMisuse => {
            let id = "security/internal-api-misuse";
            assert(id@[9] == 'i');
        },
        RegisteredRule::HardcodedSecrets => {
            let id = "security/hardcoded-secrets";
            assert(id@[9] == 'h');
        },
        RegisteredRule::EnvNotGitignored => {
            let id = "security/env-not-gitignored";
            assert(id@[9] == 'e');
        },
        RegisteredRule::SpoofableAccessControl => {
            let id = "security/spoofable-access-control";
            assert(id@[9] == 's');
        },
        RegisteredRule::MissingTableId => {
            let id = "security/missing-table-id";
            assert(id@[9] == 'm' && id@[17] == 't');
        },
        RegisteredRule::MissingHttpAuth => {
            let id = "security/missing-http-auth";
            assert(id@[9] == 'm' && id@[17] == 'h');
        },
        RegisteredRule::ConditionalFunctionExport => {
            let id = "security/conditional-function-export";
            assert(id@[9] == 'c');
        },
        RegisteredRule::GenericMutationArgs => {
            let id = "security/generic-mutation-args";
            assert(id@[9] == 'g');
        },
        RegisteredRule::OverlyBroadPatch => {
            let id = "security/overly-broad-patch";
            assert(id@[9] == 'o');
        },
        RegisteredRule::HttpMissingCors => {
            let id = "security/http-missing-cors";
            assert(id@[9] == 'h' && id@[10] == 't');
        },
        RegisteredRule::UnboundedCollect => {
            let id = "perf/unbounded-collect";
            assert(id@[0] == 'p');
        },
        RegisteredRule::FilterWithoutIndex => {
            let id = "perf/filter-without-index";
            assert(id@[0] == 'p' && id@[5] == 'f');
        },
        RegisteredRule::DateNowInQuery => {
            let id = "perf/date-now-in-query";
            assert(id@[0] == 'p' && id@[5] == 'd');
        },
        RegisteredRule::LoopRunMutation => {
            let id = "perf/loop-run-mutation";
            assert(id@[0] == 'p' && id@[5] == 'l');
        },
        RegisteredRule::SequentialRunCalls => {
            let id = "perf/sequential-run-calls";
            assert(id@[0] == 'p' && id@[5] == 's');
        },
        RegisteredRule::UnnecessaryRunAction => {
            let id = "perf/unnecessary-run-action";
            assert(id@[0] == 'p' && id@[5] == 'u' && id@[7] == 'n');
        },
        RegisteredRule::HelperVsRun => {
            let id = "perf/helper-vs-run";
            assert(id@[0] == 'p' && id@[5] == 'h');
        },
        RegisteredRule::MissingIndexOnForeignKey => {
            let id = "perf/missing-index-on-foreign-key";
            assert(id@[0] == 'p' && id@[5] == 'm');
        },
        RegisteredRule::ActionFromClient => {
            let id = "perf/action-from-client";
            assert(id@[0] == 'p' && id@[5] == 'a');
        },
        RegisteredRule::CollectThenFilter => {
            let id = "perf/collect-then-filter";
            assert(id@[0] == 'p' && id@[5] == 'c');
        },
        RegisteredRule::LargeDocumentWrite => {
            let id = "perf/large-document-write";
            assert(id@[0] == 'p' && id@[5] == 'l' && id@[6] == 'a');
        },
        RegisteredRule::NoPaginationForList => {
            let id = "perf/no-pagination-for-list";
            assert(id@[0] == 'p' && id@[5] == 'n');
        },
        RegisteredRule::UnwaitedPromise => {
            let id = "correctness/unwaited-promise";
            assert(id@[0] == 'c');
        },
        RegisteredRule::OldFunctionSyntax => {
            let id = "correctness/old-function-syntax";
            assert(id@[0] == 'c' && id@[12] == 'o');
        },
        RegisteredRule::DbInAction => {
            let id = "correctness/db-in-action";
            assert(id@[0] == 'c' && id@[12] == 'd');
        },
        RegisteredRule::DeprecatedApi => {
            let id = "correctness/deprecated-api";
            assert(id@[0] == 'c' && id@[12] == 'd' && id@[13] == 'e');
        },
        RegisteredRule::WrongRuntimeImport => {
            let id = "correctness/wrong-runtime-import";
            assert(id@[0] == 'c' && id@[12] == 'w');
        },
        RegisteredRule::DirectFunctionRef => {
            let id = "correctness/direct-function-ref";
            assert(id@[0] == 'c' && id@[12] == 'd' && id@[13] == 'i');
        },
        RegisteredRule::MissingUnique => {
            let id = "correctness/missing-unique";
            assert(id@[0] == 'c' && id@[12] == 'm');
        },
        RegisteredRule::QuerySideEffect => {
            let id = "correctness/query-side-effect";
            assert(id@[0] == 'c' && id@[12] == 'q');
        },
        RegisteredRule::MutationInQuery => {
            let id = "correctness/mutation-in-query";
            assert(id@[0] == 'c' && id@[12] == 'm' && id@[13] == 'u');
        },
        RegisteredRule::CronUsesPublicApi => {
            let id = "correctness/cron-uses-public-api";
            assert(id@[0] == 'c' && id@[12] == 'c');
        },
        RegisteredRule::NodeQueryMutation => {
            let id = "correctness/node-query-mutation";
            assert(id@[0] == 'c' && id@[12] == 'n');
        },
        RegisteredRule::SchedulerReturnIgnored => {
            let id = "correctness/scheduler-return-ignored";
            assert(id@[0] == 'c' && id@[12] == 's');
        },
        RegisteredRule::NonDeterministicInQuery => {
            let id = "correctness/non-deterministic-in-query";
            assert(id@[0] == 'c' && id@[12] == 'n' && id@[14] == 'n');
        },
        RegisteredRule::ReplaceVsPatch => {
            let id = "correctness/replace-vs-patch";
            assert(id@[0] == 'c' && id@[12] == 'r');
        },
        RegisteredRule::GeneratedCodeModified => {
            let id = "correctness/generated-code-modified";
            assert(id@[0] == 'c' && id@[12] == 'g');
        },
        RegisteredRule::MissingSchema => {
            let id = "schema/missing-schema";
            assert(id@[0] == 's' && id@[1] == 'c');
        },
        RegisteredRule::DeepNesting => {
            let id = "schema/deep-nesting";
            assert(id@[0] == 's' && id@[1] == 'c' && id@[7] == 'd');
        },
        RegisteredRule::ArrayRelationships => {
            let id = "schema/array-relationships";
            assert(id@[0] == 's' && id@[1] == 'c' && id@[7] == 'a');
        },
        RegisteredRule::RedundantIndex => {
            let id = "schema/redundant-index";
            assert(id@[0] == 's' && id@[1] == 'c' && id@[7] == 'r');
        },
        RegisteredRule::TooManyIndexes => {
            let id = "schema/too-many-indexes";
            assert(id@[0] == 's' && id@[1] == 'c' && id@[7] == 't');
        },
        RegisteredRule::MissingSearchIndexFilter => {
            let id = "schema/missing-search-index-filter";
            assert(id@[0] == 's' && id@[1] == 'c' && id@[7] == 'm' && id@[16] == 'e');
        },
        RegisteredRule::OptionalFieldNoDefaultHandling => {
            let id = "schema/optional-field-no-default-handling";
            assert(id@[0] == 's' && id@[1] == 'c' && id@[7] == 'o');
        },
        RegisteredRule::MissingIndexForQuery => {
            let id = "schema/missing-index-for-query";
            assert(id@[0] == 's' && id@[1] == 'c' && id@[7] == 'm' && id@[15] == 'i');
        },
        RegisteredRule::LargeHandler => {
            let id = "arch/large-handler";
            assert(id@[0] == 'a');
        },
        RegisteredRule::MonolithicFile => {
            let id = "arch/monolithic-file";
            assert(id@[0] == 'a' && id@[5] == 'm');
        },
        RegisteredRule::DuplicatedAuth => {
            let id = "arch/duplicated-auth";
            assert(id@[0] == 'a' && id@[5] == 'd');
        },
        RegisteredRule::ActionWithoutScheduling => {
            let id = "arch/action-without-scheduling";
            assert(id@[0] == 'a' && id@[5] == 'a');
        },
        RegisteredRule::NoConvexError => {
            let id = "arch/no-convex-error";
            assert(id@[0] == 'a' && id@[5] == 'n');
        },
        RegisteredRule::MixedFunctionTypes => {
            let id = "arch/mixed-function-types";
            assert(id@[0] == 'a' && id@[5] == 'm' && id@[6] == 'i');
        },
        RegisteredRule::NoHelperFunctions => {
            let id = "arch/no-helper-functions";
            assert(id@[0] == 'a' && id@[5] == 'n' && id@[8] == 'h');
        },
        RegisteredRule::DeepFunctionChain => {
            let id = "arch/deep-function-chain";
            assert(id@[0] == 'a' && id@[5] == 'd' && id@[6] == 'e');
        },
        RegisteredRule::MissingConvexJson => {
            let id = "config/missing-convex-json";
            assert(id@[0] == 'c' && id@[2] == 'n');
        },
        RegisteredRule::MissingAuthConfig => {
            let id = "config/missing-auth-config";
            assert(id@[0] == 'c' && id@[2] == 'n' && id@[15] == 'a');
        },
        RegisteredRule::MissingGeneratedCode => {
            let id = "config/missing-generated-code";
            assert(id@[0] == 'c' && id@[2] == 'n' && id@[15] == 'g');
        },
        RegisteredRule::OutdatedNodeVersion => {
            let id = "config/outdated-node-version";
            assert(id@[0] == 'c' && id@[2] == 'n' && id@[7] == 'o');
        },
        RegisteredRule::MissingTsconfig => {
            let id = "config/missing-tsconfig";
            assert(id@[0] == 'c' && id@[2] == 'n' && id@[7] == 'm' && id@[15] == 't');
        },
        RegisteredRule::MutationInRender => {
            let id = "client/mutation-in-render";
            assert(id@[0] == 'c' && id@[1] == 'l');
        },
        RegisteredRule::UnhandledLoadingState => {
            let id = "client/unhandled-loading-state";
            assert(id@[0] == 'c' && id@[1] == 'l' && id@[7] == 'u');
        },
        RegisteredRule::ActionInsteadOfMutation => {
            let id = "client/action-instead-of-mutation";
            assert(id@[0] == 'c' && id@[1] == 'l' && id@[7] == 'a');
        },
        RegisteredRule::MissingConvexProvider => {
            let id = "client/missing-convex-provider";
            assert(id@[0] == 'c' && id@[1] == 'l' && id@[7] == 'm' && id@[8] == 'i');
        },
    }
}

/// No two registered rules share an id.
pub proof fn law_rule_ids_distinct(r1: RegisteredRule, r2: RegisteredRule)
    ensures
        r1.spec_id() == r2.spec_id() ==> r1 == r2,
{
    lemma_rule_named(r1);
    lemma_rule_named(r2);
}

/// A registered rule's id begins with the prefix of its category, and with no other
/// category's: `security/`, `perf/`, `correctness/`, `schema/`, `arch/`, `config/`, `client/`.
pub proof fn law_id_prefix_fixes_category(r: RegisteredRule, c: Category)
    ensures
        has_prefix(r.spec_id(), category_prefix(c)) <==> c == r.spec_category(),
{
    reveal_strlit("security/");
    reveal_strlit("perf/");
    reveal_strlit("correctness/");
    reveal_strlit("schema/");
    reveal_strlit("arch/");
    reveal_strlit("config/");
    reveal_strlit("client/");
    reveal_strlit("security/missing-arg-validators");
    reveal_strlit("security/missing-return-validators");
    reveal_strlit("security/missing-auth-check");
    reveal_strlit("security/internal-api-misuse");
    reveal_strlit("security/hardcoded-secrets");
    reveal_strlit("security/env-not-gitignored");
    reveal_strlit("security/spoofable-access-control");
    reveal_strlit("security/missing-table-id");
    reveal_strlit("security/missing-http-auth");
    reveal_strlit("security/conditional-function-export");
    reveal_strlit("security/generic-mutation-args");
    reveal_strlit("security/overly-broad-patch");
    reveal_strlit("security/http-missing-cors");
    reveal_strlit("perf/unbounded-collect");
    reveal_strlit("perf/filter-without-index");
    reveal_strlit("perf/date-now-in-query");
    reveal_strlit("perf/loop-run-mutation");
    reveal_strlit("perf/sequential-run-calls");
    reveal_strlit("perf/unnecessary-run-action");
    reveal_strlit("perf/helper-vs-run");
    reveal_strlit("perf/missing-index-on-foreign-key");
    reveal_strlit("perf/action-from-client");
    reveal_strlit("perf/collect-then-filter");
    reveal_strlit("perf/large-document-write");
    reveal_strlit("perf/no-pagination-for-list");
    reveal_strlit("correctness/unwaited-promise");
    reveal_strlit("correctness/old-function-syntax");
    reveal_strlit("correctness/db-in-action");
    reveal_strlit("correctness/deprecated-api");
    reveal_strlit("correctness/wrong-runtime-import");
    reveal_strlit("correctness/direct-function-ref");
    reveal_strlit("correctness/missing-unique");
    reveal_strlit("correctness/query-side-effect");
    reveal_strlit("correctness/mutation-in-query");
    reveal_strlit("correctness/cron-uses-public-api");
    reveal_strlit("correctness/node-query-mutation");
    reveal_strlit("correctness/scheduler-return-ignored");
    reveal_strlit("correctness/non-deterministic-in-query");
    reveal_strlit("correctness/replace-vs-patch");
    reveal_strlit("correctness/generated-code-modified");
    reveal_strlit("schema/missing-schema");
    reveal_strlit("schema/deep-nesting");
    reveal_strlit("schema/array-relationships");
    reveal_strlit("schema/redundant-index");
    reveal_strlit("schema/too-many-indexes");
    reveal_strlit("schema/missing-search-index-filter");
    reveal_strlit("schema/optional-field-no-default-handling");
    reveal_strlit("schema/missing-index-for-query");
    reveal_strlit("arch/large-handler");
    reveal_strlit("arch/monolithic-file");
    reveal_strlit("arch/duplicated-auth");
    reveal_strlit("arch/action-without-scheduling");
    reveal_strlit("arch/no-convex-error");
    reveal_strlit("arch/mixed-function-types");
    reveal_strlit("arch/no-helper-functions");
    reveal_strlit("arch/deep-function-chain");
    reveal_strlit("config/missing-convex-json");
    reveal_strlit("config/missing-auth-config");
    reveal_strlit("config/missing-generated-code");
    reveal_strlit("config/outdated-node-version");
    reveal_strlit("config/missing-tsconfig");
    reveal_strlit("client/mutation-in-render");
    reveal_strlit("client/unhandled-loading-state");
    reveal_strlit("client/action-instead-of-mutation");
    reveal_strlit("client/missing-convex-provider");
    let id = r.spec_id();
    let p = category_prefix(c);
    assert(id.len() > 2);
    // The prefixes differ within their first three characters.
    assert(has_prefix(id, p) ==> id[0] == p[0] && id[1] == p[1] && id[2] == p[2]);
}

/// With every rule of `rules` turned off, neither a file nor the project yields a finding.
pub proof fn law_all_rules_off_report_nothing(
    rules: Seq<RegisteredRule>,
    analysis: FileAnalysis,
    ctx: ProjectContext,
    settings: Seq<(String, String)>,
)
    requires
        forall|k: int| 0 <= k < rules.len() ==> !rule_enabled(settings, (#[trigger] rules[k]).spec_id()),
    ensures
        file_diagnostics(rules, analysis, settings) == Seq::<DiagnosticModel>::empty(),
        project_diagnostics(rules, ctx, settings) == Seq::<DiagnosticModel>::empty(),
    decreases rules.len(),
{
    if rules.len() > 0 {
        let init = rules.drop_last();
        assert forall|k: int| 0 <= k < init.len() implies !rule_enabled(settings, (#[trigger] init[k]).spec_id()) by {
            assert(init[k] == rules[k]);
        }
        law_all_rules_off_report_nothing(init, analysis, ctx, settings);
        assert(!rule_enabled(settings, rules[rules.len() - 1].spec_id()));
        assert(file_diagnostics(rules, analysis, settings) =~= Seq::<DiagnosticModel>::empty());
        assert(project_diagnostics(rules, ctx, settings) =~= Seq::<DiagnosticModel>::empty());
    }
}

} // verus!
