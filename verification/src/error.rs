//! The closed set of failure categories that host and plugin share.

use vstd::prelude::*;

verus! {

/// Everything that can go wrong at the plugin boundary.
///
/// Each category carries a tag that locates the failure and a message that
/// describes it.
#[derive(Debug)]
pub enum PluginError {
    /// The plugin could not be loaded.
    LoadError {
        /// Where loading failed.
        context: String,
        /// What went wrong.
        message: String,
    },
    /// The plugin failed while executing.
    ExecutionError {
        /// Where execution failed.
        context: String,
        /// What went wrong.
        message: String,
    },
    /// A command could not be parsed or handled.
    CommandError {
        /// The offending command.
        command: String,
        /// What went wrong.
        message: String,
    },
    /// A configuration entry is missing or unusable.
    ConfigurationError {
        /// The offending configuration key.
        key: String,
        /// What went wrong.
        message: String,
    },
    /// An external resource is unavailable.
    ResourceError {
        /// The kind of resource.
        resource_type: String,
        /// What went wrong.
        message: String,
    },
    /// A plugin-specific failure outside the other categories.
    CustomError {
        /// A free-form category tag.
        error_type: String,
        /// What went wrong.
        message: String,
    },
}

/// Result of a fallible plugin operation.
pub type PluginResult<T> = Result<T, PluginError>;

/// The mathematical content of a [`PluginError`]: its category and the two
/// texts it carries.
pub enum PluginErrorView {
    LoadError { context: Seq<char>, message: Seq<char> },
    ExecutionError { context: Seq<char>, message: Seq<char> },
    CommandError { command: Seq<char>, message: Seq<char> },
    ConfigurationError { key: Seq<char>, message: Seq<char> },
    ResourceError { resource_type: Seq<char>, message: Seq<char> },
    CustomError { error_type: Seq<char>, message: Seq<char> },
}

impl View for PluginError {
    type V = PluginErrorView;

    open spec fn view(&self) -> PluginErrorView {
        match self {
            PluginError::LoadError { context, message } => PluginErrorView::LoadError {
                context: context@,
                message: message@,
            },
            PluginError::ExecutionError { context, message } => PluginErrorView::ExecutionError {
                context: context@,
                message: message@,
            },
            PluginError::CommandError { command, message } => PluginErrorView::CommandError {
                command: command@,
                message: message@,
            },
            PluginError::ConfigurationError { key, message } => PluginErrorView::ConfigurationError {
                key: key@,
                message: message@,
            },
            PluginError::ResourceError { resource_type, message } => PluginErrorView::ResourceError {
                resource_type: resource_type@,
                message: message@,
            },
            PluginError::CustomError { error_type, message } => PluginErrorView::CustomError {
                error_type: error_type@,
                message: message@,
            },
        }
    }
}

impl PluginErrorView {
    /// The tag of the error: context, command, key, resource type or
    /// category tag, whichever the category carries.
    pub open spec fn tag(self) -> Seq<char> {
        match self {
            PluginErrorView::LoadError { context, .. } => context,
            PluginErrorView::ExecutionError { context, .. } => context,
            PluginErrorView::CommandError { command, .. } => command,
            PluginErrorView::ConfigurationError { key, .. } => key,
            PluginErrorView::ResourceError { resource_type, .. } => resource_type,
            PluginErrorView::CustomError { error_type, .. } => error_type,
        }
    }

    /// The message of the error.
    pub open spec fn message(self) -> Seq<char> {
        match self {
            PluginErrorView::LoadError { message, .. } => message,
            PluginErrorView::ExecutionError { message, .. } => message,
            PluginErrorView::CommandError { message, .. } => message,
            PluginErrorView::ConfigurationError { message, .. } => message,
            PluginErrorView::ResourceError { message, .. } => message,
            PluginErrorView::CustomError { message, .. } => message,
        }
    }

    /// The single line that stands for the error wherever it is shown.
    pub open spec fn rendered(self) -> Seq<char> {
        match self {
            PluginErrorView::LoadError { context, message } => "Load error in "@ + context + ": "@
                + message,
            PluginErrorView::ExecutionError { context, message } => "Execution error in "@ + context
                + ": "@ + message,
            PluginErrorView::CommandError { command, message } => "Command '"@ + command
                + "' error: "@ + message,
            PluginErrorView::ConfigurationError { key, message } => "Configuration error for '"@
                + key + "': "@ + message,
            PluginErrorView::ResourceError { resource_type, message } => resource_type
                + " resource error: "@ + message,
            PluginErrorView::CustomError { error_type, message } => error_type + ": "@ + message,
        }
    }
}

/// `part` occurs in `whole` as a contiguous run of characters.
pub open spec fn occurs_in(part: Seq<char>, whole: Seq<char>) -> bool {
    exists|start: int|
        0 <= start && start + part.len() <= whole.len() && #[trigger] whole.subrange(
            start,
            start + part.len(),
        ) == part
}

/// `text` is what converting `source` into a `String` may give. For a string
/// slice and for a `String` it is the text with the same characters.
pub open spec fn converts_to<S: Into<String>>(source: S, text: String) -> bool {
    call_ensures(<S as Into<String>>::into, (source,), text)
}

/// std's `String::from` on a string slice, taken on trust: the new string
/// holds the characters of the slice, in their order.
pub assume_specification<'a>[ <String as From<&'a str>>::from ](s: &str) -> (text: String)
    ensures
        text@ == s@,
;

/// std's `From::from` of a type for itself, taken on trust: it hands its
/// argument back unchanged.
pub assume_specification<A>[ <A as From<A>>::from ](a: A) -> (same: A)
    ensures
        same == a,
;

impl PluginError {
    /// A loading failure in `context`.
    pub fn load_error<S: Into<String>>(context: S, message: S) -> (error: Self)
        ensures
            error matches PluginError::LoadError { context: c, message: m } && converts_to(
                context,
                c,
            ) && converts_to(message, m),
    {
        PluginError::LoadError { context: context.into(), message: message.into() }
    }

    /// An execution failure in `context`.
    pub fn execution_error<S: Into<String>>(context: S, message: S) -> (error: Self)
        ensures
            error matches PluginError::ExecutionError { context: c, message: m } && converts_to(
                context,
                c,
            ) && converts_to(message, m),
    {
        PluginError::ExecutionError { context: context.into(), message: message.into() }
    }

    /// A failure to handle `command`.
    pub fn command_error<S: Into<String>>(command: S, message: S) -> (error: Self)
        ensures
            error matches PluginError::CommandError { command: c, message: m } && converts_to(
                command,
                c,
            ) && converts_to(message, m),
    {
        PluginError::CommandError { command: command.into(), message: message.into() }
    }

    /// A failure caused by the configuration entry `key`.
    pub fn configuration_error<S: Into<String>>(key: S, message: S) -> (error: Self)
        ensures
            error matches PluginError::ConfigurationError { key: k, message: m } && converts_to(
                key,
                k,
            ) && converts_to(message, m),
    {
        PluginError::ConfigurationError { key: key.into(), message: message.into() }
    }

    /// A failure to reach a resource of kind `resource_type`.
    pub fn resource_error<S: Into<String>>(resource_type: S, message: S) -> (error: Self)
        ensures
            error matches PluginError::ResourceError { resource_type: r, message: m }
                && converts_to(resource_type, r) && converts_to(message, m),
    {
        PluginError::ResourceError { resource_type: resource_type.into(), message: message.into() }
    }

    /// A plugin-specific failure tagged `error_type`.
    pub fn custom_error<S: Into<String>>(error_type: S, message: S) -> (error: Self)
        ensures
            error matches PluginError::CustomError { error_type: t, message: m } && converts_to(
                error_type,
                t,
            ) && converts_to(message, m),
    {
        PluginError::CustomError { error_type: error_type.into(), message: message.into() }
    }

    /// Renders the error as one human-readable line.
    pub fn to_string(&self) -> (line: String)
        ensures
            line@ == self@.rendered(),
    {
        match self {
            PluginError::LoadError { context, message } => {
                let mut line = String::from_str("Load error in ");
                line.append(context.as_str());
                line.append(": ");
                line.append(message.as_str());
                line
            },
            PluginError::ExecutionError { context, message } => {
                let mut line = String::from_str("Execution error in ");
                line.append(context.as_str());
                line.append(": ");
                line.append(message.as_str());
                line
            },
            PluginError::CommandError { command, message } => {
                let mut line = String::from_str("Command '");
                line.append(command.as_str());
                line.append("' error: ");
                line.append(message.as_str());
                line
            },
            PluginError::ConfigurationError { key, message } => {
                let mut line = String::from_str("Configuration error for '");
                line.append(key.as_str());
                line.append("': ");
                line.append(message.as_str());
                line
            },
            PluginError::ResourceError { resource_type, message } => {
                let mut line = resource_type.clone();
                line.append(" resource error: ");
                line.append(message.as_str());
                line
            },
            PluginError::CustomError { error_type, message } => {
                let mut line = error_type.clone();
                line.append(": ");
                line.append(message.as_str());
                line
            },
        }
    }
}

/// Rendering loses neither text: the tag and the message of an error both
/// occur verbatim in its rendered line, whatever the category.
pub proof fn lemma_rendered_embeds_tag_and_message(error: PluginErrorView)
    ensures
        occurs_in(error.tag(), error.rendered()),
        occurs_in(error.message(), error.rendered()),
{
    let line = error.rendered();
    let tag = error.tag();
    let message = error.message();
    let lead: Seq<char> = match error {
        PluginErrorView::LoadError { .. } => "Load error in "@,
        PluginErrorView::ExecutionError { .. } => "Execution error in "@,
        PluginErrorView::CommandError { .. } => "Command '"@,
        PluginErrorView::ConfigurationError { .. } => "Configuration error for '"@,
        PluginErrorView::ResourceError { .. } => Seq::empty(),
        PluginErrorView::CustomError { .. } => Seq::empty(),
    };
    let joint: Seq<char> = match error {
        PluginErrorView::LoadError { .. } => ": "@,
        PluginErrorView::ExecutionError { .. } => ": "@,
        PluginErrorView::CommandError { .. } => "' error: "@,
        PluginErrorView::ConfigurationError { .. } => "': "@,
        PluginErrorView::ResourceError { .. } => " resource error: "@,
        PluginErrorView::CustomError { .. } => ": "@,
    };
    assert(line =~= lead + tag + joint + message);
    let tag_at = lead.len() as int;
    let message_at = (lead.len() + tag.len() + joint.len()) as int;
    assert(line.subrange(tag_at, tag_at + tag.len()) =~= tag);
    assert(line.subrange(message_at, message_at + message.len()) =~= message);
}

/// `text` holds no line break.
pub open spec fn is_single_line(text: Seq<char>) -> bool {
    forall|i: int| 0 <= i < text.len() ==> text[i] != '\n'
}

/// An error renders as a single line: where neither the tag nor the message
/// holds a line break, the rendered line holds none.
pub proof fn lemma_rendered_is_single_line(error: PluginErrorView)
    requires
        is_single_line(error.tag()),
        is_single_line(error.message()),
    ensures
        is_single_line(error.rendered()),
{
    reveal_strlit("Load error in ");
    reveal_strlit("Execution error in ");
    reveal_strlit("Command '");
    reveal_strlit("Configuration error for '");
    reveal_strlit(": ");
    reveal_strlit("' error: ");
    reveal_strlit("': ");
    reveal_strlit(" resource error: ");
}

} // verus!
