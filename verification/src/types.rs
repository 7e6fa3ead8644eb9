//! Value objects returned by the Discuit API.
//!
//! These are immutable, server-defined records.  The client decodes them from
//! JSON and never constructs them itself, except for the copy of the
//! authenticated [`User`] held in the client state.  Timestamp fields carry
//! the RFC 3339 text exactly as the server sent it; the decoder checks that
//! such a field is a well-formed timestamp but the client never computes on
//! it.

use vstd::prelude::*;

verus! {

/// The community and user mutes of the authenticated user.
#[derive(Debug, PartialEq, Eq)]
pub struct Mutes {
    /// Community mutes, if any were returned.
    pub community_mutes: Option<Vec<Mute>>,
    /// User mutes, if any were returned.
    pub user_mutes: Option<Vec<Mute>>,
}

/// A reason that can be given when reporting a post or comment.
#[derive(Debug, Clone, PartialEq, Eq)]
pub struct ReportReason {
    /// The ID of the report reason.
    pub id: i32,
    /// The title of the report reason.
    pub title: String,
    /// The description of the report reason, if one was set.
    pub description: Option<String>,
}

/// A user on the platform.
#[derive(Debug, PartialEq, Eq)]
pub struct User {
    /// The ID of the user.
    pub id: String,
    /// The username of the user.
    pub username: String,
    /// The email address of the user, if one was provided.
    pub email: Option<String>,
    /// When the email address was confirmed, if it was.
    pub email_confirmed_at: Option<String>,
    /// The text the user wrote about themselves, if any.
    pub about_me: Option<String>,
    /// The number of points that the user has.
    pub points: i32,
    /// Whether the user is an admin.
    pub is_admin: bool,
    /// The profile picture of the user, if one was set.
    pub pro_pic: Option<Image>,
    /// The badges that the user has; may be empty.
    pub badges: Vec<Badge>,
    /// The number of posts the user has made.
    pub no_posts: i32,
    /// The number of comments the user has made.
    pub no_comments: i32,
    /// When the account was created.
    pub created_at: String,
    /// Whether the account has been deleted.
    pub deleted: bool,
    /// When the account was deleted, if it was.
    pub deleted_at: Option<String>,
    /// Whether the user has turned off upvote notifications.
    pub upvote_notifications_off: bool,
    /// Whether the user has turned off reply notifications.
    pub reply_notifications_off: bool,
    /// The feed the user has set as their home feed.
    pub home_feed: String,
    /// Whether the user wants their feed sort remembered.
    pub remember_feed_sort: bool,
    /// Whether the user wants link-post embeds turned off.
    pub embeds_off: bool,
    /// Whether the user wants other users' profile pictures hidden.
    pub hide_user_profile_pictures: bool,
    /// When the user was banned, if they were.
    pub banned_at: Option<String>,
    /// Whether the user is banned.
    pub is_banned: bool,
    /// The number of new notifications the user has.
    pub notifications_new_count: i32,
    /// The communities the user moderates, if they moderate any.
    pub modding_list: Option<Vec<Community>>,
}

/// A badge of a user.
#[derive(Debug, Clone, PartialEq, Eq)]
pub struct Badge {
    /// The ID of the badge.
    pub id: i32,
    /// The title of the badge.
    pub badge_type: String,
}

/// A community on the platform.
#[derive(Debug, PartialEq, Eq)]
pub struct Community {
    /// The ID of the community.
    pub id: String,
    /// The ID of the user who created the community.
    pub user_id: String,
    /// The name of the community.
    pub name: String,
    /// Whether the community hosts NSFW content.
    pub nsfw: bool,
    /// The description of the community, if one was set.
    pub about: Option<String>,
    /// The number of members of the community.
    pub no_members: i32,
    /// The community icon, if one was set.
    pub pro_pic: Option<Image>,
    /// The community banner image, if one was set.
    pub banner_image: Option<Image>,
    /// When the community was created.
    pub created_at: String,
    /// When the community was deleted, if it was.
    pub deleted_at: Option<String>,
    /// Whether this is a default community; only returned when the default
    /// communities are requested.
    pub is_default: Option<bool>,
    /// Whether the authenticated user is a member; absent when not
    /// authenticated.
    pub user_joined: Option<bool>,
    /// Whether the authenticated user is a moderator; absent when not
    /// authenticated.
    pub user_mod: Option<bool>,
    /// The users moderating the community, if they were returned.
    pub mods: Option<Vec<User>>,
    /// The rules of the community, if they were returned.
    pub rules: Option<Vec<CommunityRule>>,
    /// Report counts; only visible to moderators of the community.
    pub report_details: Option<ReportDetails>,
}

/// The report counts of a community.
#[derive(Debug, Clone, PartialEq, Eq)]
pub struct ReportDetails {
    /// The total number of reports.
    pub no_reports: i32,
    /// The total number of posts reported.
    pub no_post_reports: i32,
    /// The total number of comments reported.
    pub no_comment_reports: i32,
}

/// A rule of a community.
#[derive(Debug, Clone, PartialEq, Eq)]
pub struct CommunityRule {
    /// The ID of the rule.
    pub id: i32,
    /// The title of the rule.
    pub rule: String,
    /// The description of the rule, if one was set.
    pub description: Option<String>,
    /// The ID of the community in which this is a rule.
    pub community_id: String,
    /// The index of the rule; a smaller value stands closer to the top.
    pub z_index: i32,
    /// The ID of the user who created the rule.
    pub created_by: String,
    /// When the rule was created.
    pub created_at: String,
}

/// An image.
#[derive(Debug, Clone, PartialEq, Eq)]
pub struct Image {
    /// The ID of the image.
    pub id: String,
    /// The image format.
    pub format: String,
    /// The MIME type of the image.
    pub mimetype: String,
    /// The image width.
    pub width: i32,
    /// The image height.
    pub height: i32,
    /// The size of the image in bytes.
    pub size: i32,
    /// The average color of the image.
    pub average_color: String,
    /// A link to the image.
    pub url: String,
    /// Copies of the image in different sizes.
    pub copies: Vec<ImageCopy>,
}

/// A copy of an [`Image`] in a different size.
#[derive(Debug, Clone, PartialEq, Eq)]
pub struct ImageCopy {
    /// The name of the copy, if one was set.
    pub name: Option<String>,
    /// The width of the copy.
    pub width: i32,
    /// The height of the copy.
    pub height: i32,
    /// The width of the box that the copy fits into.
    pub box_width: i32,
    /// The height of the box that the copy fits into.
    pub box_height: i32,
    /// How the copy fits into its box.
    pub object_fit: String,
    /// The format of the copy.
    pub format: String,
    /// A link to the copy.
    pub url: String,
}

/// A mute of a user or of a community.
#[derive(Debug, PartialEq, Eq)]
pub struct Mute {
    /// The ID of the mute.
    pub id: String,
    /// Whether a user or a community is muted.
    pub mute_type: String,
    /// The ID of the muted user, if a user is muted.
    pub muted_user_id: Option<String>,
    /// The ID of the muted community, if a community is muted.
    pub muted_community_id: Option<String>,
    /// When the mute was created.
    pub created_at: String,
    /// The muted user, if a user is muted.
    pub muted_user: Option<User>,
    /// The muted community, if a community is muted.
    pub muted_community: Option<Community>,
}

/// A comment on a post.
#[derive(Debug, PartialEq, Eq)]
pub struct Comment {
    /// The ID of the comment.
    pub id: String,
    /// The ID of the post the comment belongs to.
    pub post_id: String,
    /// The public ID of the post the comment belongs to.
    pub post_public_id: String,
    /// The ID of the community the comment was made in.
    pub community_id: String,
    /// The name of the community the comment was made in.
    pub community_name: String,
    /// The ID of the author, if the account still exists.
    pub user_id: Option<String>,
    /// The username of the author.
    pub username: String,
    /// The ghost-user ID, if the author deleted their account.
    pub user_ghost_id: Option<String>,
    /// The capacity in which the comment was made.
    pub user_group: String,
    /// Whether the author's account is deleted.
    pub user_deleted: bool,
    /// The ID of the parent comment, if this is not a top-level comment.
    pub parent_id: Option<String>,
    /// How deep in a comment chain the comment stands; top level is 0.
    pub depth: i32,
    /// The total number of replies, including deeper ones.
    pub no_replies: i32,
    /// The number of direct replies.
    pub no_direct_replies: i32,
    /// The IDs of all ancestor comments, topmost first, if returned.
    pub ancestors: Option<Vec<String>>,
    /// The body of the comment.
    pub body: String,
    /// The number of upvotes.
    pub upvotes: i32,
    /// The number of downvotes.
    pub downvotes: i32,
    /// When the comment was created.
    pub created_at: String,
    /// When the comment was last edited, if it was.
    pub edited_at: Option<String>,
    /// Whether the content of the comment was stripped.
    pub content_stripped: Option<bool>,
    /// Whether the comment was deleted.
    pub deleted: bool,
    /// When the comment was deleted, if it was.
    pub deleted_at: Option<String>,
    /// In what capacity the comment was deleted, if it was.
    pub deleted_as: Option<String>,
    /// The author of the comment.
    pub author: User,
    /// Whether the author is muted by the authenticated user.
    pub is_author_muted: Option<bool>,
    /// Whether the authenticated user has voted on the comment.
    pub user_voted: Option<bool>,
    /// Whether that vote was an upvote.
    pub user_voted_up: Option<bool>,
    /// The title of the post the comment belongs to, if returned.
    pub post_title: Option<String>,
    /// Whether the post the comment belongs to is deleted.
    pub post_deleted: bool,
    /// In what capacity that post was deleted, if it was.
    pub post_deleted_as: Option<String>,
}

/// A post.
#[derive(Debug, PartialEq, Eq)]
pub struct Post {
    /// The ID of the post.
    pub id: String,
    /// The type of the post.
    pub post_type: String,
    /// The public ID of the post, as it appears in post URLs.
    pub public_id: String,
    /// The ID of the author.
    pub user_id: String,
    /// The username of the author.
    pub username: String,
    /// The ghost-user ID, if the author deleted their account.
    pub user_ghost_id: Option<String>,
    /// The capacity in which the post was made.
    pub user_group: String,
    /// Whether the author's account is deleted.
    pub user_deleted: bool,
    /// Whether the post is pinned in its community.
    pub is_pinned: bool,
    /// Whether the post is pinned site-wide.
    pub is_pinned_site: bool,
    /// The ID of the community the post is in.
    pub community_id: String,
    /// The name of that community.
    pub community_name: String,
    /// The icon of that community.
    pub community_pro_pic: Image,
    /// The banner image of that community.
    pub community_banner_image: Image,
    /// The title of the post.
    pub title: String,
    /// The body of the post; only text posts have one.
    pub body: Option<String>,
    /// The posted image; only image posts have one.
    pub image: Option<Image>,
    /// The posted link; only link posts have one.
    pub link: Option<Link>,
    /// Whether the post is locked.
    pub locked: bool,
    /// Who locked the post, if it is locked.
    pub locked_by: Option<String>,
    /// In what capacity the post was locked, if it was.
    pub locked_by_group: Option<String>,
    /// When the post was locked, if it was.
    pub locked_at: Option<String>,
    /// The number of upvotes.
    pub upvotes: i32,
    /// The number of downvotes.
    pub downvotes: i32,
    /// The hotness score used for ordering posts.
    pub hotness: i32,
    /// When the post was created.
    pub created_at: String,
    /// When the post was last edited, if it was.
    pub edited_at: Option<String>,
    /// When the post last saw activity.
    pub last_activity_at: String,
    /// Whether the post was deleted.
    pub deleted: bool,
    /// When the post was deleted, if it was.
    pub deleted_at: Option<String>,
    /// Who deleted the post, if it was deleted.
    pub deleted_by: Option<String>,
    /// In what capacity the post was deleted, if it was.
    pub deleted_as: Option<String>,
    /// Whether the body and the attached media were deleted too.
    pub deleted_content: bool,
    /// In what capacity the content was deleted, if it was.
    pub deleted_content_as: Option<String>,
    /// The number of comments on the post.
    pub no_comments: i32,
    /// The comments of the post, if they were returned.
    pub comments: Option<Vec<Comment>>,
    /// The pagination cursor for the comments, if there are more.
    pub comments_next: Option<String>,
    /// Whether the authenticated user has voted on the post.
    pub user_voted: Option<bool>,
    /// Whether that vote was an upvote.
    pub user_upvoted: Option<bool>,
    /// Whether the author is muted by the authenticated user.
    pub is_author_muted: bool,
    /// Whether the community is muted by the authenticated user.
    pub is_community_muted: bool,
    /// The community the post is in.
    pub community: Community,
    /// The author of the post, if the account still exists.
    pub user: Option<User>,
}

/// A link attached to a link post.
#[derive(Debug, Clone, PartialEq, Eq)]
pub struct Link {
    /// The URL of the link.
    pub url: String,
    /// The hostname of the link.
    pub hostname: String,
    /// The OpenGraph image of the linked site, if one was found.
    pub image: Option<Image>,
}

/// A list of posts or comments kept by a user.
#[derive(Debug, Clone, PartialEq, Eq)]
pub struct List {
    /// The ID of the list.
    pub id: i32,
    /// The ID of the owner.
    pub user_id: String,
    /// The username of the owner.
    pub username: String,
    /// The name of the list.
    pub name: String,
    /// The display name of the list.
    pub display_name: String,
    /// The description of the list, if one was set.
    pub description: Option<String>,
    /// Whether the list is public.
    pub public: bool,
    /// The number of items in the list.
    pub num_items: i32,
    /// The current sorting of the list.
    pub sort: String,
    /// When the list was created.
    pub created_at: String,
    /// When an item was last added to the list.
    pub last_updated_at: String,
}

/// An item of a [`List`].
#[derive(Debug, PartialEq, Eq)]
pub struct ListItem {
    /// The ID of the list item.
    pub id: i32,
    /// The ID of the list.
    pub list_id: i32,
    /// The type of the target item.
    pub target_type: String,
    /// The ID of the target item.
    pub target_id: String,
    /// When the list item was created.
    pub created_at: String,
    /// The target item.
    pub target_item: Post,
}

/// The method used to sort posts.
#[derive(Debug, Clone, Copy, PartialEq, Eq)]
pub enum Sort {
    Hot,
    Activity,
    New,
    Day,
    Week,
    Month,
    Year,
}

/// The query-parameter value of a [`Sort`].
pub open spec fn sort_label(s: Sort) -> Seq<char> {
    match s {
        Sort::Hot => "hot"@,
        Sort::Activity => "activity"@,
        Sort::New => "new"@,
        Sort::Day => "day"@,
        Sort::Week => "week"@,
        Sort::Month => "month"@,
        Sort::Year => "year"@,
    }
}

impl Sort {
    /// Renders the sort method as the value of the `sort` query parameter.
    pub fn to_string(&self) -> (r: String)
        ensures
            r@ == sort_label(*self),
    {
        match self {
            Sort::Hot => String::from_str("hot"),
            Sort::Activity => String::from_str("activity"),
            Sort::New => String::from_str("new"),
            Sort::Day => String::from_str("day"),
            Sort::Week => String::from_str("week"),
            Sort::Month => String::from_str("month"),
            Sort::Year => String::from_str("year"),
        }
    }
}

/// How much the client reports about its work.  The levels are ordered from
/// the most verbose to the most silent.
#[derive(Debug, Clone, Copy, PartialEq, Eq, PartialOrd, Ord)]
pub enum LogLevel {
    /// Everything, including request and response bodies.
    Debug,
    /// Informational messages, such as the URL of each request.
    Info,
    /// Warnings about potential issues.
    Warning,
    /// Errors only.
    Error,
    /// Nothing at all.
    Silent,
}

/// The label under which messages of a [`LogLevel`] are reported.
pub open spec fn log_level_label(l: LogLevel) -> Seq<char> {
    match l {
        LogLevel::Debug => "DEBUG"@,
        LogLevel::Info => "INFO"@,
        LogLevel::Warning => "WARNING"@,
        LogLevel::Error => "ERROR"@,
        LogLevel::Silent => "SILENT"@,
    }
}

impl LogLevel {
    /// Renders the level as the label used in log lines.
    pub fn to_string(&self) -> (r: String)
        ensures
            r@ == log_level_label(*self),
    {
        match self {
            LogLevel::Debug => String::from_str("DEBUG"),
            LogLevel::Info => String::from_str("INFO"),
            LogLevel::Warning => String::from_str("WARNING"),
            LogLevel::Error => String::from_str("ERROR"),
            LogLevel::Silent => String::from_str("SILENT"),
        }
    }
}

impl Default for LogLevel {
    /// The default level reports informational messages and above.
    fn default() -> (r: Self)
        ensures
            r == LogLevel::Info,
    {
        LogLevel::Info
    }
}

} // verus!
