//! The records that the service sends back, as plain values.
use vstd::prelude::*;

verus! {

// ── User ──

#[derive(Debug)]
pub struct User {
    pub id: u64,
    pub first_name: String,
    pub last_name: Option<String>,
    pub email: Option<String>,
    pub default_currency: Option<String>,
    pub locale: Option<String>,
    pub notifications_count: Option<u64>,
}

#[derive(Debug)]
pub struct UserResponse {
    pub user: User,
}

// ── Group ──

#[derive(Clone, Debug)]
pub struct Group {
    pub id: u64,
    pub name: String,
    pub group_type: Option<String>,
    pub simplify_by_default: Option<bool>,
    pub invite_link: Option<String>,
        pub members: Vec<GroupMember>,
        pub original_debts: Vec<Debt>,
        pub simplified_debts: Vec<Debt>,
}

#[derive(Clone, Debug)]
pub struct GroupMember {
    pub id: u64,
    pub first_name: String,
    pub last_name: Option<String>,
    pub email: Option<String>,
        pub balance: Vec<Balance>,
}

#[derive(Clone, Debug)]
pub struct Debt {
    pub from: u64,
    pub to: u64,
    pub amount: String,
    pub currency_code: String,
}

#[derive(Debug)]
pub struct GroupsResponse {
    pub groups: Vec<Group>,
}

#[derive(Debug)]
pub struct GroupResponse {
    pub group: Group,
}

// ── Friend ──

#[derive(Debug)]
pub struct Friend {
    pub id: u64,
    pub first_name: String,
    pub last_name: Option<String>,
    pub email: Option<String>,
        pub balance: Vec<Balance>,
        pub groups: Vec<GroupBalance>,
}

#[derive(Clone, Debug)]
pub struct Balance {
    pub currency_code: String,
    pub amount: String,
}

#[derive(Debug)]
pub struct GroupBalance {
    pub group_id: u64,
        pub balance: Vec<Balance>,
}

#[derive(Debug)]
pub struct FriendsResponse {
    pub friends: Vec<Friend>,
}

#[derive(Debug)]
pub struct FriendResponse {
    pub friend: Friend,
}

#[derive(Debug)]
pub struct CreateFriendResponse {
    pub friends: Vec<Friend>,
}

// ── Expense ──

#[derive(Debug)]
pub struct Expense {
    pub id: u64,
    pub description: String,
    pub cost: String,
    pub currency_code: String,
    pub date: Option<String>,
    pub created_by: Option<ExpenseUser>,
    pub category: Option<ExpenseCategory>,
    pub deleted_at: Option<String>,
    pub repeat_interval: Option<String>,
        pub repayments: Vec<Repayment>,
        pub users: Vec<Share>,
        pub comments: Vec<Comment>,
}

#[derive(Debug)]
pub struct ExpenseUser {
    pub id: u64,
    pub first_name: String,
    pub last_name: Option<String>,
}

#[derive(Debug)]
pub struct ExpenseCategory {
    pub id: u64,
    pub name: String,
}

#[derive(Debug)]
pub struct Share {
    pub user_id: u64,
    pub first_name: Option<String>,
    pub last_name: Option<String>,
    pub paid_share: String,
    pub owed_share: String,
    pub net_balance: String,
}

#[derive(Debug)]
pub struct Repayment {
    pub from: u64,
    pub to: u64,
    pub amount: String,
}

#[derive(Debug)]
pub struct ExpensesResponse {
    pub expenses: Vec<Expense>,
}

#[derive(Debug)]
pub struct ExpenseResponse {
    pub expense: Expense,
}

// ── Comment ──

#[derive(Debug)]
pub struct Comment {
    pub id: u64,
    pub content: String,
    pub created_at: Option<String>,
    pub deleted_at: Option<String>,
    pub created_by: Option<CommentUser>,
}

#[derive(Debug)]
pub struct CommentUser {
    pub id: u64,
    pub first_name: String,
    pub last_name: Option<String>,
}

#[derive(Debug)]
pub struct CommentsResponse {
    pub comments: Vec<Comment>,
}

#[derive(Debug)]
pub struct CommentResponse {
    pub comment: Comment,
}

// ── Notification ──

#[derive(Debug)]
pub struct Notification {
    pub id: u64,
        pub notification_type: u64,
    pub content: Option<String>,
    pub created_at: Option<String>,
    pub created_by: Option<u64>,
    pub source: Option<NotificationSource>,
}

#[derive(Debug)]
pub struct NotificationSource {
        pub source_type: Option<String>,
    pub id: Option<u64>,
    pub url: Option<String>,
}

#[derive(Debug)]
pub struct NotificationsResponse {
    pub notifications: Vec<Notification>,
}

// ── Currency ──

#[derive(Debug)]
pub struct Currency {
    pub currency_code: String,
    pub unit: String,
}

#[derive(Debug)]
pub struct CurrenciesResponse {
    pub currencies: Vec<Currency>,
}

// ── Category ──

#[derive(Debug)]
pub struct Category {
    pub id: u64,
    pub name: String,
        pub subcategories: Vec<SubCategory>,
}

#[derive(Debug)]
pub struct SubCategory {
    pub id: u64,
    pub name: String,
}

#[derive(Debug)]
pub struct CategoriesResponse {
    pub categories: Vec<Category>,
}

// ── Generic success/error ──

#[derive(Debug)]
pub struct SuccessResponse {
    pub success: bool,
    pub errors: Option<String>,
}

} // verus!
